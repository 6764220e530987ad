//! Stripe webhook handling: which database change an authenticated event
//! asks for. The server verifies the signature, records the event id for
//! idempotency, and applies the action decided here.

use vstd::prelude::*;
use vstd::string::*;
use crate::models::billing::{Subscription, Purchase};
use crate::models::posts::Post;
use crate::models::tiers::Tier;
use crate::services::entitlements::{UserEntitlements, access_decision, owned_posts, owned_series,
    is_highest_active_level, counts_subscription, counts_purchase, lemma_paid_post_is_owned, lemma_paid_series_is_owned};
use crate::models::billing::status_grants_access;
use crate::services::stripe::opt_text;
use crate::handlers::billing::{SellableItem, purchase_metadata_spec, subscription_metadata, post_for_sale, series_for_sale};
use crate::models::series::Series;
use crate::models::billing::status_is_paid;
use crate::text::{decimal, uuid_hyphenated, lemma_decimal_round_trip, str_eq, parse_uuid, parsed_uuid, chars_of, parse_i32, parse_int};

pub use crate::services::stripe::{StripeEventObject, StripeWebhookEvent};

verus! {

/// What the webhook does with an event
#[derive(Debug, Clone)]
pub enum WebhookAction {
    /// The event id was already recorded: acknowledge and do nothing
    AlreadyProcessed,
    /// Nothing to mirror for this event
    Ignore,
    /// The object carries no usable `user_id` metadata: log and skip
    MissingUser,
    /// Insert this purchase (keeping an existing one)
    RecordPurchase(Purchase),
    /// Insert this subscription, or update the one with the same Stripe id
    UpsertSubscription(Subscription),
}

/// The UUID in an optional field, when present and well formed.
pub open spec fn field_uuid(s: Option<String>) -> Option<u128> {
    match s {
        Some(t) => parsed_uuid(t@),
        None => None,
    }
}

fn read_uuid(s: &Option<String>) -> (r: Option<u128>)
    ensures
        r == field_uuid(*s),
{
    match s {
        Some(t) => parse_uuid(t.as_str()),
        None => None,
    }
}

/// Whether `chrono::DateTime::from_timestamp(seconds, 0)` accepts
/// `seconds`: whether that instant lies within chrono's range of dates,
/// from January 1 of year -262143 to the last second of December 31 of
/// year 262142 (UTC).
pub open spec fn chrono_accepts_timestamp(seconds: i64) -> bool {
    -8_334_601_228_800 <= seconds <= 8_210_266_876_799
}

/// `chrono::DateTime::from_timestamp(seconds, 0)` taken to microseconds
/// (`timestamp_micros`). The contract claims that the result, when there is
/// one, is `seconds` whole seconds in microseconds, and that there is one
/// exactly when `seconds` lies in chrono's range of dates
/// (`chrono_accepts_timestamp`).
#[verifier::external_body]
fn timestamp_to_micros(seconds: i64) -> (r: Option<i64>)
    ensures
        r is Some <==> chrono_accepts_timestamp(seconds),
        r matches Some(m) ==> m as int == seconds as int * 1_000_000,
{
    match chrono::DateTime::from_timestamp(seconds, 0) {
        Some(t) => Some(t.timestamp_micros()),
        None => None,
    }
}

/// The period end a subscription object reports, in microseconds.
pub open spec fn period_end_micros(seconds: Option<i64>) -> Option<int> {
    match seconds {
        Some(s) => if chrono_accepts_timestamp(s) { Some(s as int * 1_000_000) } else { None },
        None => None,
    }
}

/// The tier level in a subscription's metadata, 0 when absent or not an `i32`.
pub open spec fn metadata_level(s: Option<String>) -> int {
    match s {
        Some(t) => match parse_int(t@, i32::MIN as int, i32::MAX as int) {
            Some(v) => v,
            None => 0,
        },
        None => 0,
    }
}

/// `row` is the subscription row a Stripe subscription object describes
/// for `user`, stamped with row id `id` and time `now`.
pub open spec fn subscription_row(object: StripeEventObject, user: u128, id: u128, now: i64, row: Subscription) -> bool {
    &&& row.id == id
    &&& row.user_id == user
    &&& row.tier_id == field_uuid(object.metadata_tier_id)
    &&& row.tier_level == metadata_level(object.metadata_tier_level)
    &&& Some(row.stripe_subscription_id@) == opt_text(object.id)
    &&& row.status@ == (match object.status {
        Some(s) => s@,
        None => "unknown"@,
    })
    &&& (match row.current_period_end {
        Some(m) => period_end_micros(object.current_period_end) == Some(m as int),
        None => period_end_micros(object.current_period_end) is None,
    })
    &&& row.cancel_at_period_end == (match object.cancel_at_period_end {
        Some(b) => b,
        None => false,
    })
    &&& row.created_at == now
    &&& row.updated_at == now
}

/// What a `customer.subscription.*` event asks for: nothing without an
/// object id, a skip without a `user_id`, else the mirrored row.
pub open spec fn subscription_action_ok(object: StripeEventObject, id: u128, now: i64, a: WebhookAction) -> bool {
    if object.id is None {
        a is Ignore
    } else {
        match field_uuid(object.metadata_user_id) {
            None => a is MissingUser,
            Some(user) => a matches WebhookAction::UpsertSubscription(row) && subscription_row(object, user, id, now, row),
        }
    }
}

/// The row for a `customer.subscription.*` event
pub fn subscription_action(object: &StripeEventObject, id: u128, now: i64) -> (a: WebhookAction)
    ensures
        subscription_action_ok(*object, id, now, a),
{
    let stripe_subscription_id = match &object.id {
        Some(s) => s.clone(),
        None => return WebhookAction::Ignore,
    };
    let user_id = match read_uuid(&object.metadata_user_id) {
        Some(u) => u,
        None => return WebhookAction::MissingUser,
    };
    let tier_id = read_uuid(&object.metadata_tier_id);
    let tier_level: i32 = match &object.metadata_tier_level {
        Some(t) => match parse_i32(&chars_of(t.as_str())) {
            Some(v) => v,
            None => 0,
        },
        None => 0,
    };
    let status = match &object.status {
        Some(s) => s.clone(),
        None => String::from_str("unknown"),
    };
    let cancel_at_period_end = match object.cancel_at_period_end {
        Some(b) => b,
        None => false,
    };
    let current_period_end = match object.current_period_end {
        Some(s) => timestamp_to_micros(s),
        None => None,
    };
    WebhookAction::UpsertSubscription(Subscription {
        id,
        user_id,
        tier_id,
        tier_level,
        stripe_subscription_id,
        status,
        current_period_end,
        cancel_at_period_end,
        created_at: now,
        updated_at: now,
    })
}

/// The amount of a checkout session, when it fits an `i32`.
pub open spec fn session_amount(amount: Option<i64>) -> Option<i32> {
    match amount {
        Some(a) => if i32::MIN <= a <= i32::MAX { Some(a as i32) } else { None },
        None => None,
    }
}

/// What a completed payment checkout asks for: a skip without a `user_id`;
/// nothing unless it names exactly one item, a post or a series (a purchase
/// is of one or the other, never both); else a paid purchase row of that
/// item, stamped with row id `id` and time `now`.
pub open spec fn purchase_action_ok(object: StripeEventObject, id: u128, now: i64, a: WebhookAction) -> bool {
    match field_uuid(object.metadata_user_id) {
        None => a is MissingUser,
        Some(user) => {
            if field_uuid(object.metadata_post_id) is None == field_uuid(object.metadata_series_id) is None {
                a is Ignore
            } else {
                a matches WebhookAction::RecordPurchase(row) && {
                    &&& row.id == id
                    &&& row.user_id == user
                    &&& row.post_id == field_uuid(object.metadata_post_id)
                    &&& row.series_id == field_uuid(object.metadata_series_id)
                    &&& opt_text(row.stripe_checkout_session_id) == opt_text(object.id)
                    &&& opt_text(row.stripe_payment_intent_id) == opt_text(object.payment_intent)
                    &&& row.amount_cents == session_amount(object.amount_total)
                    &&& row.status@ == "paid"@
                    &&& row.created_at == now
                }
            }
        },
    }
}

fn clone_opt(s: &Option<String>) -> (r: Option<String>)
    ensures
        opt_text(r) == opt_text(*s),
{
    match s {
        Some(t) => Some(t.clone()),
        None => None,
    }
}

/// The purchase for a completed payment checkout session
pub fn purchase_action(object: &StripeEventObject, id: u128, now: i64) -> (a: WebhookAction)
    ensures
        purchase_action_ok(*object, id, now, a),
{
    let user_id = match read_uuid(&object.metadata_user_id) {
        Some(u) => u,
        None => return WebhookAction::MissingUser,
    };
    let post_id = read_uuid(&object.metadata_post_id);
    let series_id = read_uuid(&object.metadata_series_id);
    if post_id.is_none() == series_id.is_none() {
        return WebhookAction::Ignore;
    }
    let amount_cents: Option<i32> = match object.amount_total {
        Some(a) => if i32::MIN as i64 <= a && a <= i32::MAX as i64 { Some(a as i32) } else { None },
        None => None,
    };
    WebhookAction::RecordPurchase(Purchase {
        id,
        user_id,
        post_id,
        series_id,
        stripe_checkout_session_id: clone_opt(&object.id),
        stripe_payment_intent_id: clone_opt(&object.payment_intent),
        amount_cents,
        status: String::from_str("paid"),
        created_at: now,
    })
}

/// A purchase is of a post or of a series, never both: every purchase a
/// completed checkout records names exactly one item.
pub proof fn lemma_recorded_purchase_is_of_one_item(object: StripeEventObject, id: u128, now: i64, a: WebhookAction)
    requires
        purchase_action_ok(object, id, now, a),
        a is RecordPurchase,
    ensures
        a matches WebhookAction::RecordPurchase(row) && (row.post_id is Some != row.series_id is Some),
{
}

/// The time a subscription row is stamped with, in microseconds: when
/// Stripe created the event, so that states can be ordered however late
/// they arrive; the processing time `now` when the event carries no usable
/// creation time.
pub open spec fn event_stamp(created: Option<i64>, now: i64) -> i64 {
    match created {
        Some(c) => if -9_223_372_036_854 <= c <= 9_223_372_036_854 { (c * 1_000_000) as i64 } else { now },
        None => now,
    }
}

fn event_time(created: Option<i64>, now: i64) -> (t: i64)
    ensures
        t == event_stamp(created, now),
{
    match created {
        Some(c) => if -9_223_372_036_854 <= c && c <= 9_223_372_036_854 { c * 1_000_000 } else { now },
        None => now,
    }
}

/// The event types that mirror a subscription.
pub open spec fn is_subscription_event(t: Seq<char>) -> bool {
    t == "customer.subscription.created"@ || t == "customer.subscription.updated"@
        || t == "customer.subscription.deleted"@
}

/// What the webhook does with an authenticated event, given whether its id
/// was newly recorded (`first_delivery`): replays do nothing; a completed
/// checkout in `payment` mode records a purchase (subscription checkouts are
/// mirrored through the subscription events); the three subscription
/// events mirror the subscription; every other type is ignored.
pub open spec fn webhook_action_ok(first_delivery: bool, event: StripeWebhookEvent, id: u128, now: i64, a: WebhookAction) -> bool {
    if !first_delivery {
        a is AlreadyProcessed
    } else if event.event_type@ == "checkout.session.completed"@ {
        if opt_text(event.object.mode) == Some("payment"@) {
            purchase_action_ok(event.object, id, now, a)
        } else {
            a is Ignore
        }
    } else if is_subscription_event(event.event_type@) {
        subscription_action_ok(event.object, id, event_stamp(event.created, now), a)
    } else {
        a is Ignore
    }
}

/// Decide what an authenticated event asks for; `id` and `now` stamp a new row.
pub fn webhook_action(first_delivery: bool, event: &StripeWebhookEvent, id: u128, now: i64) -> (a: WebhookAction)
    ensures
        webhook_action_ok(first_delivery, *event, id, now, a),
{
    if !first_delivery {
        return WebhookAction::AlreadyProcessed;
    }
    let t = event.event_type.as_str();
    if str_eq(t, "checkout.session.completed") {
        let payment = match &event.object.mode {
            Some(m) => str_eq(m.as_str(), "payment"),
            None => false,
        };
        if payment {
            purchase_action(&event.object, id, now)
        } else {
            WebhookAction::Ignore
        }
    } else if str_eq(t, "customer.subscription.created") || str_eq(t, "customer.subscription.updated")
        || str_eq(t, "customer.subscription.deleted") {
        subscription_action(&event.object, id, event_time(event.created, now))
    } else {
        WebhookAction::Ignore
    }
}

/// The row stored for a Stripe subscription after an update `incoming`
/// arrives: the update when nothing is stored; else the update, keeping the
/// stored row id and creation time, when it is not older than the stored
/// state; else the stored row unchanged.
pub open spec fn subscription_after(stored: Option<Subscription>, incoming: Subscription) -> Subscription {
    match stored {
        None => incoming,
        Some(s) => if s.updated_at <= incoming.updated_at {
            Subscription {
                id: s.id,
                user_id: incoming.user_id,
                tier_id: incoming.tier_id,
                tier_level: incoming.tier_level,
                stripe_subscription_id: incoming.stripe_subscription_id,
                status: incoming.status,
                current_period_end: incoming.current_period_end,
                cancel_at_period_end: incoming.cancel_at_period_end,
                created_at: s.created_at,
                updated_at: incoming.updated_at,
            }
        } else {
            s
        },
    }
}

/// What to write for a subscription update given the row stored for the
/// same Stripe subscription, if any: the new row, or None when the update
/// is older than the stored state and so is not applied
pub fn subscription_write(stored: Option<Subscription>, incoming: Subscription) -> (w: Option<Subscription>)
    ensures
        match stored {
            Some(s) if s.updated_at > incoming.updated_at => w is None,
            _ => w == Some(subscription_after(stored, incoming)),
        },
{
    match stored {
        None => Some(incoming),
        Some(s) => {
            if s.updated_at > incoming.updated_at {
                None
            } else {
                Some(Subscription {
                    id: s.id,
                    user_id: incoming.user_id,
                    tier_id: incoming.tier_id,
                    tier_level: incoming.tier_level,
                    stripe_subscription_id: incoming.stripe_subscription_id,
                    status: incoming.status,
                    current_period_end: incoming.current_period_end,
                    cancel_at_period_end: incoming.cancel_at_period_end,
                    created_at: s.created_at,
                    updated_at: incoming.updated_at,
                })
            }
        },
    }
}

/// The state a subscription row mirrors from Stripe.
pub open spec fn mirrored_state(s: Subscription) -> (u128, Option<u128>, i32, Seq<char>, Seq<char>, Option<i64>, bool, i64) {
    (s.user_id, s.tier_id, s.tier_level, s.stripe_subscription_id@, s.status@, s.current_period_end, s.cancel_at_period_end, s.updated_at)
}

/// Delivery order does not matter: two updates of a subscription with
/// different stamps leave the same mirrored state whichever arrives first,
/// the state of the newest among them and what was stored.
pub proof fn lemma_subscription_updates_commute(stored: Option<Subscription>, a: Subscription, b: Subscription)
    requires
        a.updated_at != b.updated_at,
        stored matches Some(s) ==> s.updated_at != a.updated_at && s.updated_at != b.updated_at,
    ensures
        mirrored_state(subscription_after(Some(subscription_after(stored, a)), b))
            == mirrored_state(subscription_after(Some(subscription_after(stored, b)), a)),
        ({
            let last = subscription_after(Some(subscription_after(stored, a)), b);
            &&& last.updated_at >= a.updated_at
            &&& last.updated_at >= b.updated_at
            &&& (stored matches Some(s) ==> last.updated_at >= s.updated_at)
        }),
{
}

/// The value Stripe returns for `key` in metadata sent as the entries `m`
/// (a later entry for the same key replaces an earlier one).
pub open spec fn metadata_value(m: Seq<(Seq<char>, Seq<char>)>, key: Seq<char>) -> Option<Seq<char>>
    decreases m.len(),
{
    if m.len() == 0 {
        None
    } else if m.last().0 == key {
        Some(m.last().1)
    } else {
        metadata_value(m.drop_last(), key)
    }
}

/// The object's metadata fields are what the checkout sent as `m`.
pub open spec fn carries_metadata(object: StripeEventObject, m: Seq<(Seq<char>, Seq<char>)>) -> bool {
    &&& opt_text(object.metadata_user_id) == metadata_value(m, "user_id"@)
    &&& opt_text(object.metadata_post_id) == metadata_value(m, "post_id"@)
    &&& opt_text(object.metadata_series_id) == metadata_value(m, "series_id"@)
    &&& opt_text(object.metadata_tier_id) == metadata_value(m, "tier_id"@)
    &&& opt_text(object.metadata_tier_level) == metadata_value(m, "tier_level"@)
}

/// Buying a series records a purchase of that series: a completed payment
/// checkout carrying the metadata of a series sale to a fan is recorded as
/// the fan's purchase of the series (and of no post), so it counts as
/// owning the series.
pub proof fn lemma_series_checkout_records_the_series(
    user_id: u128,
    series: Series,
    item: SellableItem,
    object: StripeEventObject,
    id: u128,
    now: i64,
    a: WebhookAction,
)
    requires
        series_for_sale(series, item),
        parsed_uuid(uuid_hyphenated(user_id)) == Some(user_id),
        carries_metadata(object, purchase_metadata_spec(user_id, item)),
        purchase_action_ok(object, id, now, a),
    ensures
        a matches WebhookAction::RecordPurchase(row) && row.user_id == user_id
            && row.series_id == Some(series.id) && row.post_id is None,
        a matches WebhookAction::RecordPurchase(row) && status_is_paid(row.status@)
            && owned_series(seq![row], user_id) == seq![series.id],
{
    reveal_strlit("user_id");
    reveal_strlit("post_id");
    reveal_strlit("series_id");
    reveal_strlit("amount_cents");
    reveal_strlit("paid");
    reveal_with_fuel(metadata_value, 4);
    let m = purchase_metadata_spec(user_id, item);
    assert("user_id"@ != "post_id"@) by {
        assert("user_id"@[0] != "post_id"@[0]);
    }
    assert("amount_cents"@.len() != "user_id"@.len());
    assert("amount_cents"@.len() != "series_id"@.len());
    assert("series_id"@.len() != "user_id"@.len());
    assert(m.drop_last().drop_last().drop_last() =~= Seq::<(Seq<char>, Seq<char>)>::empty());
    assert(m.drop_last().last() == (item.meta_key@, item.meta_value@));
    assert(metadata_value(m, "series_id"@) == Some(item.meta_value@));
    assert(metadata_value(m, "user_id"@) == Some(uuid_hyphenated(user_id)));
    assert(metadata_value(m, "post_id"@) is None);
    if let WebhookAction::RecordPurchase(row) = a {
        assert(counts_purchase(row, user_id));
        assert(owned_series(seq![row], user_id) =~= seq![series.id]) by {
            reveal_with_fuel(owned_series, 2);
            reveal_with_fuel(owned_posts, 2);
            assert(seq![row].drop_last() =~= Seq::<Purchase>::empty());
            assert(seq![row].last() == row);
        }
    }
}

/// Buying a post records a purchase of that post: a completed payment
/// checkout carrying the metadata of a post sale to a fan is recorded as the
/// fan's purchase of the post (and of no series), so it counts as owning
/// the post.
pub proof fn lemma_post_checkout_records_the_post(
    user_id: u128,
    post: Post,
    item: SellableItem,
    object: StripeEventObject,
    id: u128,
    now: i64,
    a: WebhookAction,
)
    requires
        post_for_sale(post, item),
        parsed_uuid(uuid_hyphenated(user_id)) == Some(user_id),
        carries_metadata(object, purchase_metadata_spec(user_id, item)),
        purchase_action_ok(object, id, now, a),
    ensures
        a matches WebhookAction::RecordPurchase(row) && row.user_id == user_id
            && row.post_id == Some(post.id) && row.series_id is None,
        a matches WebhookAction::RecordPurchase(row) && status_is_paid(row.status@)
            && owned_posts(seq![row], user_id) == seq![post.id],
{
    reveal_strlit("user_id");
    reveal_strlit("post_id");
    reveal_strlit("series_id");
    reveal_strlit("amount_cents");
    reveal_strlit("paid");
    reveal_with_fuel(metadata_value, 4);
    let m = purchase_metadata_spec(user_id, item);
    assert("user_id"@ != "post_id"@) by {
        assert("user_id"@[0] != "post_id"@[0]);
    }
    assert("amount_cents"@.len() != "user_id"@.len());
    assert("amount_cents"@.len() != "series_id"@.len());
    assert("series_id"@.len() != "user_id"@.len());
    assert(m.drop_last().drop_last().drop_last() =~= Seq::<(Seq<char>, Seq<char>)>::empty());
    assert(m.drop_last().last() == (item.meta_key@, item.meta_value@));
    assert(metadata_value(m, "post_id"@) == Some(item.meta_value@));
    assert(metadata_value(m, "user_id"@) == Some(uuid_hyphenated(user_id)));
    assert(metadata_value(m, "series_id"@) is None);
    if let WebhookAction::RecordPurchase(row) = a {
        assert(counts_purchase(row, user_id));
        assert(owned_posts(seq![row], user_id) =~= seq![post.id]) by {
            reveal_with_fuel(owned_series, 2);
            reveal_with_fuel(owned_posts, 2);
            assert(seq![row].drop_last() =~= Seq::<Purchase>::empty());
            assert(seq![row].last() == row);
        }
    }
}

/// A mirrored subscription row says what the Stripe object says: the
/// subscription id, the user and tier from its metadata, its status
/// (`unknown` when absent), whether it cancels at period end (only when the
/// object says `true`), and its period end in microseconds when chrono can
/// represent it.
pub proof fn lemma_subscription_row_mirrors_object(object: StripeEventObject, id: u128, now: i64, a: WebhookAction)
    requires
        subscription_action_ok(object, id, now, a),
        a is UpsertSubscription,
    ensures
        a matches WebhookAction::UpsertSubscription(row) && {
            &&& object.id matches Some(sid) && row.stripe_subscription_id@ == sid@
            &&& Some(row.user_id) == field_uuid(object.metadata_user_id)
            &&& row.tier_id == field_uuid(object.metadata_tier_id)
            &&& (object.status matches Some(st) ==> row.status@ == st@)
            &&& (object.status is None ==> row.status@ == "unknown"@)
            &&& row.cancel_at_period_end == (object.cancel_at_period_end == Some(true))
            &&& match object.current_period_end {
                Some(secs) => if chrono_accepts_timestamp(secs) {
                    row.current_period_end matches Some(m) && m == secs * 1_000_000
                } else {
                    row.current_period_end is None
                },
                None => row.current_period_end is None,
            }
        },
{
}

/// Subscribing reads back as that subscription: a Stripe subscription
/// object carrying the metadata of a fan's subscription checkout for a tier
/// is mirrored as a row of that fan, that tier and that tier's level.
pub proof fn lemma_subscription_checkout_read_back(
    user_id: u128,
    tier: Tier,
    object: StripeEventObject,
    id: u128,
    now: i64,
    a: WebhookAction,
)
    requires
        parsed_uuid(uuid_hyphenated(user_id)) == Some(user_id),
        parsed_uuid(uuid_hyphenated(tier.id)) == Some(tier.id),
        object.id is Some,
        carries_metadata(object, subscription_metadata(user_id, tier)),
        subscription_action_ok(object, id, now, a),
    ensures
        a matches WebhookAction::UpsertSubscription(row) && row.user_id == user_id && row.tier_id == Some(tier.id)
            && row.tier_level == tier.level,
{
    reveal_strlit("user_id");
    reveal_strlit("tier_id");
    reveal_strlit("tier_level");
    reveal_with_fuel(metadata_value, 4);
    let m = subscription_metadata(user_id, tier);
    assert("user_id"@ != "tier_id"@) by {
        assert("user_id"@[0] != "tier_id"@[0]);
    }
    assert("tier_level"@.len() != "user_id"@.len());
    assert("tier_level"@.len() != "tier_id"@.len());
    assert(m.drop_last().drop_last().drop_last() =~= Seq::<(Seq<char>, Seq<char>)>::empty());
    assert(metadata_value(m, "user_id"@) == Some(uuid_hyphenated(user_id)));
    assert(metadata_value(m, "tier_id"@) == Some(uuid_hyphenated(tier.id)));
    assert(metadata_value(m, "tier_level"@) == Some(decimal(tier.level as int)));
    lemma_subscription_metadata_read_back(user_id, tier, object, id, now, a);
}

/// A recorded purchase is what Stripe charged: paid, of the amount the
/// session totals (when it fits), tied to its checkout session and payment
/// intent, stamped at `now`.
pub proof fn lemma_recorded_purchase_is_what_was_charged(object: StripeEventObject, id: u128, now: i64, a: WebhookAction)
    requires
        purchase_action_ok(object, id, now, a),
        a is RecordPurchase,
    ensures
        a matches WebhookAction::RecordPurchase(row) && {
            &&& status_is_paid(row.status@)
            &&& match object.amount_total {
                Some(t) => if i32::MIN <= t <= i32::MAX {
                    row.amount_cents matches Some(c) && c == t
                } else {
                    row.amount_cents is None
                },
                None => row.amount_cents is None,
            }
            &&& (object.id matches Some(sid) ==> row.stripe_checkout_session_id matches Some(x) && x@ == sid@)
            &&& (object.payment_intent matches Some(pi) ==> row.stripe_payment_intent_id matches Some(x) && x@ == pi@)
            &&& row.created_at == now
            &&& row.id == id
        },
{
}

/// Each kind of event changes only what it is about: only a completed
/// payment checkout records a purchase, only the subscription events
/// mirror a subscription, and a replay changes nothing.
pub proof fn lemma_events_change_only_their_kind(first_delivery: bool, event: StripeWebhookEvent, id: u128, now: i64, a: WebhookAction)
    requires
        webhook_action_ok(first_delivery, event, id, now, a),
    ensures
        a is RecordPurchase ==> first_delivery && event.event_type@ == "checkout.session.completed"@
            && opt_text(event.object.mode) == Some("payment"@),
        a is UpsertSubscription ==> first_delivery && is_subscription_event(event.event_type@),
        !first_delivery ==> a is AlreadyProcessed,
{
    reveal_strlit("checkout.session.completed");
    reveal_strlit("customer.subscription.created");
    reveal_strlit("customer.subscription.updated");
    reveal_strlit("customer.subscription.deleted");
    if a is UpsertSubscription && event.event_type@ == "checkout.session.completed"@ {
        assert(false);
    }
}

/// Webhook processing is idempotent: a replayed event (its id already
/// recorded) changes nothing, whatever it holds.
pub proof fn lemma_replay_changes_nothing(event: StripeWebhookEvent, id: u128, now: i64, a: WebhookAction)
    requires
        webhook_action_ok(false, event, id, now, a),
    ensures
        a is AlreadyProcessed,
{
}


/// What a subscription checkout attaches, the webhook reads back: a Stripe
/// subscription object carrying the checkout's metadata (user, tier, tier
/// level) is mirrored as a row of that user, that tier and that level.
/// The UUID texts are the ones `uuid_to_string` writes, which read back as
/// the same UUIDs.
pub proof fn lemma_subscription_metadata_read_back(
    user_id: u128,
    tier: Tier,
    object: StripeEventObject,
    id: u128,
    now: i64,
    a: WebhookAction,
)
    requires
        parsed_uuid(uuid_hyphenated(user_id)) == Some(user_id),
        parsed_uuid(uuid_hyphenated(tier.id)) == Some(tier.id),
        object.id is Some,
        opt_text(object.metadata_user_id) == Some(uuid_hyphenated(user_id)),
        opt_text(object.metadata_tier_id) == Some(uuid_hyphenated(tier.id)),
        opt_text(object.metadata_tier_level) == Some(decimal(tier.level as int)),
        subscription_action_ok(object, id, now, a),
    ensures
        a matches WebhookAction::UpsertSubscription(row) && row.user_id == user_id && row.tier_id == Some(tier.id)
            && row.tier_level == tier.level,
{
    lemma_decimal_round_trip(tier.level as int, i32::MIN as int, i32::MAX as int);
}

/// Buying a post grants access to it: once the webhook records the
/// purchase from a payment checkout carrying the buyer and the post, the
/// buyer's entitlement context loaded from purchase rows that include it
/// grants access to the post, at any time and whatever their subscription.
pub proof fn lemma_bought_post_is_accessible(
    user_id: u128,
    post: Post,
    object: StripeEventObject,
    id: u128,
    now: i64,
    a: WebhookAction,
    purchases: Seq<Purchase>,
    e: UserEntitlements,
    at: i64,
)
    requires
        parsed_uuid(uuid_hyphenated(user_id)) == Some(user_id),
        parsed_uuid(uuid_hyphenated(post.id)) == Some(post.id),
        opt_text(object.metadata_user_id) == Some(uuid_hyphenated(user_id)),
        opt_text(object.metadata_post_id) == Some(uuid_hyphenated(post.id)),
        purchase_action_ok(object, id, now, a),
        a matches WebhookAction::RecordPurchase(row) && purchases.contains(row),
        e.owned_post_ids@ == owned_posts(purchases, user_id),
    ensures
        access_decision(e, post, at).granted,
{
    if let WebhookAction::RecordPurchase(row) = a {
        let i = choose|i: int| 0 <= i < purchases.len() && purchases[i] == row;
        assert(counts_purchase(purchases[i], user_id));
        lemma_paid_post_is_owned(purchases, user_id, i);
    }
}

/// Buying a series grants access to every post in it, current and future:
/// once the webhook records the series purchase, the buyer's entitlement
/// context loaded from purchase rows that include it grants access to any
/// post of that series.
pub proof fn lemma_bought_series_opens_its_posts(
    user_id: u128,
    series_id: u128,
    post: Post,
    object: StripeEventObject,
    id: u128,
    now: i64,
    a: WebhookAction,
    purchases: Seq<Purchase>,
    e: UserEntitlements,
    at: i64,
)
    requires
        parsed_uuid(uuid_hyphenated(user_id)) == Some(user_id),
        parsed_uuid(uuid_hyphenated(series_id)) == Some(series_id),
        opt_text(object.metadata_user_id) == Some(uuid_hyphenated(user_id)),
        opt_text(object.metadata_series_id) == Some(uuid_hyphenated(series_id)),
        purchase_action_ok(object, id, now, a),
        a matches WebhookAction::RecordPurchase(row) && purchases.contains(row),
        e.owned_series_ids@ == owned_series(purchases, user_id),
        post.series_id == series_id,
    ensures
        access_decision(e, post, at).granted,
{
    if let WebhookAction::RecordPurchase(row) = a {
        let i = choose|i: int| 0 <= i < purchases.len() && purchases[i] == row;
        assert(counts_purchase(purchases[i], user_id));
        lemma_paid_series_is_owned(purchases, user_id, i);
    }
}

/// An active (or trialing) subscription at a tier opens every post gated
/// at that tier's level or below: the entitlement context loaded from
/// subscription rows that include it grants access.
pub proof fn lemma_active_subscription_opens_lower_gates(
    user_id: u128,
    subscriptions: Seq<Subscription>,
    i: int,
    post: Post,
    e: UserEntitlements,
    at: i64,
)
    requires
        0 <= i < subscriptions.len(),
        subscriptions[i].user_id == user_id,
        status_grants_access(subscriptions[i].status@),
        post.min_tier_level matches Some(required) && required <= subscriptions[i].tier_level,
        is_highest_active_level(subscriptions, user_id, e.sub_tier_level),
    ensures
        access_decision(e, post, at).granted,
{
    assert(counts_subscription(subscriptions[i], user_id));
}

} // verus!

//! Events delivered by webhook, and their verification.
use vstd::prelude::*;
use vstd::utf8::encode_utf8;
use crate::header::parse_header_spec;
use crate::json::{json_object_at, json_text_at, object_at, text_at};
use crate::bytes::parse_i64_spec;
use crate::webhook::{
    TOLERANCE_SECS, WebhookError, header_timestamp, lemma_signed_delivery_accepted, service_header, unix_now,
    verify_signature, verify_spec,
};

verus! {

/// Whether two texts are equal.
fn same_text(a: &str, b: &str) -> (r: bool)
    ensures
        r == (a@ == b@),
{
    a.to_owned() == b.to_owned()
}

/// The kinds of event the service sends.
#[derive(Debug, Clone, Copy, PartialEq, Eq)]
pub enum EventType {
    AccountUpdated,
    AccountApplicationDeauthorized,
    AccountExternalAccountCreated,
    AccountExternalAccountDeleted,
    AccountExternalAccountUpdated,
    ApplicationFeeCreated,
    ApplicationFeeRefunded,
    ApplicationFeeRefundUpdated,
    BalanceAvailable,
    ChargeCaptured,
    ChargeFailed,
    ChargePending,
    ChargeRefunded,
    ChargeSucceeded,
    ChargeUpdated,
    ChargeDisputeClosed,
    ChargeDisputeCreated,
    ChargeDisputeFundsReinstated,
    ChargeDisputeFundsWithdrawn,
    ChargeDisputeUpdated,
    ChargeRefundUpdated,
    CouponCreated,
    CouponDeleted,
    CouponUpdated,
    CustomerCreated,
    CustomerDeleted,
    CustomerUpdated,
    CustomerDiscountCreated,
    CustomerDiscountDeleted,
    CustomerDiscountUpdated,
    CustomerSourceCreated,
    CustomerSourceDeleted,
    CustomerSourceUpdated,
    CustomerSubscriptionCreated,
    CustomerSubscriptionDeleted,
    CustomerSubscriptionTrialWillEnd,
    CustomerSubscriptionUpdated,
    FileCreated,
    InvoiceCreated,
    InvoicePaymentFailed,
    InvoicePaymentSucceeded,
    InvoiceUpdated,
    InvoiceUpcoming,
    InvoiceItemCreated,
    InvoiceItemDeleted,
    InvoiceItemUpdated,
    OrderCreated,
    OrderPaymentFailed,
    OrderPaymentSucceeded,
    OrderUpdated,
    OrderReturnUpdated,
    PayoutCanceled,
    PayoutCreated,
    PayoutFailed,
    PayoutPaid,
    PayoutUpdated,
    PlanCreated,
    PlanDeleted,
    PlanUpdated,
    ProductCreated,
    ProductDeleted,
    ProductUpdated,
    ReviewClosed,
    ReviewOpened,
    SigmaScheduledQueryRunCreated,
    SkuCreated,
    SkuDeleted,
    SkuUpdated,
    SourceCanceled,
    Sourcechargeable,
    SourceFailed,
    SourceTransactionCreated,
    TransferCreated,
    TransferReversed,
    TransferUpdated,
}

/// The name under which an event type is sent.
pub open spec fn event_name(t: EventType) -> Seq<char> {
    match t {
        EventType::AccountUpdated => "account.updated"@,
        EventType::AccountApplicationDeauthorized => "account.application.deauthorized"@,
        EventType::AccountExternalAccountCreated => "account.external_account.created"@,
        EventType::AccountExternalAccountDeleted => "account.external_account.deleted"@,
        EventType::AccountExternalAccountUpdated => "account.external_account.updated"@,
        EventType::ApplicationFeeCreated => "application_fee.created"@,
        EventType::ApplicationFeeRefunded => "application_fee.refunded"@,
        EventType::ApplicationFeeRefundUpdated => "application_fee.refund.updated"@,
        EventType::BalanceAvailable => "balance.available"@,
        EventType::ChargeCaptured => "charge.captured"@,
        EventType::ChargeFailed => "charge.failed"@,
        EventType::ChargePending => "charge.pending"@,
        EventType::ChargeRefunded => "charge.refunded"@,
        EventType::ChargeSucceeded => "charge.succeeded"@,
        EventType::ChargeUpdated => "charge.updated"@,
        EventType::ChargeDisputeClosed => "charge.dispute.closed"@,
        EventType::ChargeDisputeCreated => "charge.dispute.created"@,
        EventType::ChargeDisputeFundsReinstated => "charge.dispute.funds_reinstated"@,
        EventType::ChargeDisputeFundsWithdrawn => "charge.dispute.funds_withdrawn"@,
        EventType::ChargeDisputeUpdated => "charge.dispute.updated"@,
        EventType::ChargeRefundUpdated => "charge.refund.updated"@,
        EventType::CouponCreated => "coupon.created"@,
        EventType::CouponDeleted => "coupon.deleted"@,
        EventType::CouponUpdated => "coupon.updated"@,
        EventType::CustomerCreated => "customer.created"@,
        EventType::CustomerDeleted => "customer.deleted"@,
        EventType::CustomerUpdated => "customer.updated"@,
        EventType::CustomerDiscountCreated => "customer.discount.created"@,
        EventType::CustomerDiscountDeleted => "customer.discount.deleted"@,
        EventType::CustomerDiscountUpdated => "customer.discount.updated"@,
        EventType::CustomerSourceCreated => "customer.source.created"@,
        EventType::CustomerSourceDeleted => "customer.source.deleted"@,
        EventType::CustomerSourceUpdated => "customer.source.updated"@,
        EventType::CustomerSubscriptionCreated => "customer.subscription.created"@,
        EventType::CustomerSubscriptionDeleted => "customer.subscription.deleted"@,
        EventType::CustomerSubscriptionTrialWillEnd => "customer.subscription.trial_will_end"@,
        EventType::CustomerSubscriptionUpdated => "customer.subscription.updated"@,
        EventType::FileCreated => "file.created"@,
        EventType::InvoiceCreated => "invoice.created"@,
        EventType::InvoicePaymentFailed => "invoice.payment_failed"@,
        EventType::InvoicePaymentSucceeded => "invoice.payment_succeeded"@,
        EventType::InvoiceUpdated => "invoice.updated"@,
        EventType::InvoiceUpcoming => "invoice.upcoming"@,
        EventType::InvoiceItemCreated => "invoiceitem.created"@,
        EventType::InvoiceItemDeleted => "invoiceitem.deleted"@,
        EventType::InvoiceItemUpdated => "invoiceitem.updated"@,
        EventType::OrderCreated => "order.created"@,
        EventType::OrderPaymentFailed => "order.payment_failed"@,
        EventType::OrderPaymentSucceeded => "order.payment_succeeded"@,
        EventType::OrderUpdated => "order.updated"@,
        EventType::OrderReturnUpdated => "order_return.updated"@,
        EventType::PayoutCanceled => "payout.canceled"@,
        EventType::PayoutCreated => "payout.created"@,
        EventType::PayoutFailed => "payout.failed"@,
        EventType::PayoutPaid => "payout.paid"@,
        EventType::PayoutUpdated => "payout.updated"@,
        EventType::PlanCreated => "plan.created"@,
        EventType::PlanDeleted => "plan.deleted"@,
        EventType::PlanUpdated => "plan.updated"@,
        EventType::ProductCreated => "product.created"@,
        EventType::ProductDeleted => "product.deleted"@,
        EventType::ProductUpdated => "product.updated"@,
        EventType::ReviewClosed => "review.closed"@,
        EventType::ReviewOpened => "review.opened"@,
        EventType::SigmaScheduledQueryRunCreated => "sigma.scheduled_query_run.created"@,
        EventType::SkuCreated => "sku.created"@,
        EventType::SkuDeleted => "sku.deleted"@,
        EventType::SkuUpdated => "sku.updated"@,
        EventType::SourceCanceled => "source.canceled"@,
        EventType::Sourcechargeable => "source.chargeable"@,
        EventType::SourceFailed => "source.failed"@,
        EventType::SourceTransactionCreated => "source.transaction.created"@,
        EventType::TransferCreated => "transfer.created"@,
        EventType::TransferReversed => "transfer.reversed"@,
        EventType::TransferUpdated => "transfer.updated"@,
    }
}

/// Whether `s` names an event type.
pub open spec fn known_event_type(s: Seq<char>) -> bool {
    exists|t: EventType| event_name(t) == s
}

impl EventType {
    /// The name under which this event type is sent.
    pub fn name(&self) -> (r: &'static str)
        ensures
            r@ == event_name(*self),
    {
        match self {
            EventType::AccountUpdated => "account.updated",
            EventType::AccountApplicationDeauthorized => "account.application.deauthorized",
            EventType::AccountExternalAccountCreated => "account.external_account.created",
            EventType::AccountExternalAccountDeleted => "account.external_account.deleted",
            EventType::AccountExternalAccountUpdated => "account.external_account.updated",
            EventType::ApplicationFeeCreated => "application_fee.created",
            EventType::ApplicationFeeRefunded => "application_fee.refunded",
            EventType::ApplicationFeeRefundUpdated => "application_fee.refund.updated",
            EventType::BalanceAvailable => "balance.available",
            EventType::ChargeCaptured => "charge.captured",
            EventType::ChargeFailed => "charge.failed",
            EventType::ChargePending => "charge.pending",
            EventType::ChargeRefunded => "charge.refunded",
            EventType::ChargeSucceeded => "charge.succeeded",
            EventType::ChargeUpdated => "charge.updated",
            EventType::ChargeDisputeClosed => "charge.dispute.closed",
            EventType::ChargeDisputeCreated => "charge.dispute.created",
            EventType::ChargeDisputeFundsReinstated => "charge.dispute.funds_reinstated",
            EventType::ChargeDisputeFundsWithdrawn => "charge.dispute.funds_withdrawn",
            EventType::ChargeDisputeUpdated => "charge.dispute.updated",
            EventType::ChargeRefundUpdated => "charge.refund.updated",
            EventType::CouponCreated => "coupon.created",
            EventType::CouponDeleted => "coupon.deleted",
            EventType::CouponUpdated => "coupon.updated",
            EventType::CustomerCreated => "customer.created",
            EventType::CustomerDeleted => "customer.deleted",
            EventType::CustomerUpdated => "customer.updated",
            EventType::CustomerDiscountCreated => "customer.discount.created",
            EventType::CustomerDiscountDeleted => "customer.discount.deleted",
            EventType::CustomerDiscountUpdated => "customer.discount.updated",
            EventType::CustomerSourceCreated => "customer.source.created",
            EventType::CustomerSourceDeleted => "customer.source.deleted",
            EventType::CustomerSourceUpdated => "customer.source.updated",
            EventType::CustomerSubscriptionCreated => "customer.subscription.created",
            EventType::CustomerSubscriptionDeleted => "customer.subscription.deleted",
            EventType::CustomerSubscriptionTrialWillEnd => "customer.subscription.trial_will_end",
            EventType::CustomerSubscriptionUpdated => "customer.subscription.updated",
            EventType::FileCreated => "file.created",
            EventType::InvoiceCreated => "invoice.created",
            EventType::InvoicePaymentFailed => "invoice.payment_failed",
            EventType::InvoicePaymentSucceeded => "invoice.payment_succeeded",
            EventType::InvoiceUpdated => "invoice.updated",
            EventType::InvoiceUpcoming => "invoice.upcoming",
            EventType::InvoiceItemCreated => "invoiceitem.created",
            EventType::InvoiceItemDeleted => "invoiceitem.deleted",
            EventType::InvoiceItemUpdated => "invoiceitem.updated",
            EventType::OrderCreated => "order.created",
            EventType::OrderPaymentFailed => "order.payment_failed",
            EventType::OrderPaymentSucceeded => "order.payment_succeeded",
            EventType::OrderUpdated => "order.updated",
            EventType::OrderReturnUpdated => "order_return.updated",
            EventType::PayoutCanceled => "payout.canceled",
            EventType::PayoutCreated => "payout.created",
            EventType::PayoutFailed => "payout.failed",
            EventType::PayoutPaid => "payout.paid",
            EventType::PayoutUpdated => "payout.updated",
            EventType::PlanCreated => "plan.created",
            EventType::PlanDeleted => "plan.deleted",
            EventType::PlanUpdated => "plan.updated",
            EventType::ProductCreated => "product.created",
            EventType::ProductDeleted => "product.deleted",
            EventType::ProductUpdated => "product.updated",
            EventType::ReviewClosed => "review.closed",
            EventType::ReviewOpened => "review.opened",
            EventType::SigmaScheduledQueryRunCreated => "sigma.scheduled_query_run.created",
            EventType::SkuCreated => "sku.created",
            EventType::SkuDeleted => "sku.deleted",
            EventType::SkuUpdated => "sku.updated",
            EventType::SourceCanceled => "source.canceled",
            EventType::Sourcechargeable => "source.chargeable",
            EventType::SourceFailed => "source.failed",
            EventType::SourceTransactionCreated => "source.transaction.created",
            EventType::TransferCreated => "transfer.created",
            EventType::TransferReversed => "transfer.reversed",
            EventType::TransferUpdated => "transfer.updated",
        }
    }

    /// The event type sent under `s`, if any.
    pub fn from_name(s: &str) -> (r: Option<EventType>)
        ensures
            r matches Some(t) ==> event_name(t) == s@,
            r is None ==> !known_event_type(s@),
    {
        if same_text(s, "account.updated") {
            return Some(EventType::AccountUpdated);
        }
        if same_text(s, "account.application.deauthorized") {
            return Some(EventType::AccountApplicationDeauthorized);
        }
        if same_text(s, "account.external_account.created") {
            return Some(EventType::AccountExternalAccountCreated);
        }
        if same_text(s, "account.external_account.deleted") {
            return Some(EventType::AccountExternalAccountDeleted);
        }
        if same_text(s, "account.external_account.updated") {
            return Some(EventType::AccountExternalAccountUpdated);
        }
        if same_text(s, "application_fee.created") {
            return Some(EventType::ApplicationFeeCreated);
        }
        if same_text(s, "application_fee.refunded") {
            return Some(EventType::ApplicationFeeRefunded);
        }
        if same_text(s, "application_fee.refund.updated") {
            return Some(EventType::ApplicationFeeRefundUpdated);
        }
        if same_text(s, "balance.available") {
            return Some(EventType::BalanceAvailable);
        }
        if same_text(s, "charge.captured") {
            return Some(EventType::ChargeCaptured);
        }
        if same_text(s, "charge.failed") {
            return Some(EventType::ChargeFailed);
        }
        if same_text(s, "charge.pending") {
            return Some(EventType::ChargePending);
        }
        if same_text(s, "charge.refunded") {
            return Some(EventType::ChargeRefunded);
        }
        if same_text(s, "charge.succeeded") {
            return Some(EventType::ChargeSucceeded);
        }
        if same_text(s, "charge.updated") {
            return Some(EventType::ChargeUpdated);
        }
        if same_text(s, "charge.dispute.closed") {
            return Some(EventType::ChargeDisputeClosed);
        }
        if same_text(s, "charge.dispute.created") {
            return Some(EventType::ChargeDisputeCreated);
        }
        if same_text(s, "charge.dispute.funds_reinstated") {
            return Some(EventType::ChargeDisputeFundsReinstated);
        }
        if same_text(s, "charge.dispute.funds_withdrawn") {
            return Some(EventType::ChargeDisputeFundsWithdrawn);
        }
        if same_text(s, "charge.dispute.updated") {
            return Some(EventType::ChargeDisputeUpdated);
        }
        if same_text(s, "charge.refund.updated") {
            return Some(EventType::ChargeRefundUpdated);
        }
        if same_text(s, "coupon.created") {
            return Some(EventType::CouponCreated);
        }
        if same_text(s, "coupon.deleted") {
            return Some(EventType::CouponDeleted);
        }
        if same_text(s, "coupon.updated") {
            return Some(EventType::CouponUpdated);
        }
        if same_text(s, "customer.created") {
            return Some(EventType::CustomerCreated);
        }
        if same_text(s, "customer.deleted") {
            return Some(EventType::CustomerDeleted);
        }
        if same_text(s, "customer.updated") {
            return Some(EventType::CustomerUpdated);
        }
        if same_text(s, "customer.discount.created") {
            return Some(EventType::CustomerDiscountCreated);
        }
        if same_text(s, "customer.discount.deleted") {
            return Some(EventType::CustomerDiscountDeleted);
        }
        if same_text(s, "customer.discount.updated") {
            return Some(EventType::CustomerDiscountUpdated);
        }
        if same_text(s, "customer.source.created") {
            return Some(EventType::CustomerSourceCreated);
        }
        if same_text(s, "customer.source.deleted") {
            return Some(EventType::CustomerSourceDeleted);
        }
        if same_text(s, "customer.source.updated") {
            return Some(EventType::CustomerSourceUpdated);
        }
        if same_text(s, "customer.subscription.created") {
            return Some(EventType::CustomerSubscriptionCreated);
        }
        if same_text(s, "customer.subscription.deleted") {
            return Some(EventType::CustomerSubscriptionDeleted);
        }
        if same_text(s, "customer.subscription.trial_will_end") {
            return Some(EventType::CustomerSubscriptionTrialWillEnd);
        }
        if same_text(s, "customer.subscription.updated") {
            return Some(EventType::CustomerSubscriptionUpdated);
        }
        if same_text(s, "file.created") {
            return Some(EventType::FileCreated);
        }
        if same_text(s, "invoice.created") {
            return Some(EventType::InvoiceCreated);
        }
        if same_text(s, "invoice.payment_failed") {
            return Some(EventType::InvoicePaymentFailed);
        }
        if same_text(s, "invoice.payment_succeeded") {
            return Some(EventType::InvoicePaymentSucceeded);
        }
        if same_text(s, "invoice.updated") {
            return Some(EventType::InvoiceUpdated);
        }
        if same_text(s, "invoice.upcoming") {
            return Some(EventType::InvoiceUpcoming);
        }
        if same_text(s, "invoiceitem.created") {
            return Some(EventType::InvoiceItemCreated);
        }
        if same_text(s, "invoiceitem.deleted") {
            return Some(EventType::InvoiceItemDeleted);
        }
        if same_text(s, "invoiceitem.updated") {
            return Some(EventType::InvoiceItemUpdated);
        }
        if same_text(s, "order.created") {
            return Some(EventType::OrderCreated);
        }
        if same_text(s, "order.payment_failed") {
            return Some(EventType::OrderPaymentFailed);
        }
        if same_text(s, "order.payment_succeeded") {
            return Some(EventType::OrderPaymentSucceeded);
        }
        if same_text(s, "order.updated") {
            return Some(EventType::OrderUpdated);
        }
        if same_text(s, "order_return.updated") {
            return Some(EventType::OrderReturnUpdated);
        }
        if same_text(s, "payout.canceled") {
            return Some(EventType::PayoutCanceled);
        }
        if same_text(s, "payout.created") {
            return Some(EventType::PayoutCreated);
        }
        if same_text(s, "payout.failed") {
            return Some(EventType::PayoutFailed);
        }
        if same_text(s, "payout.paid") {
            return Some(EventType::PayoutPaid);
        }
        if same_text(s, "payout.updated") {
            return Some(EventType::PayoutUpdated);
        }
        if same_text(s, "plan.created") {
            return Some(EventType::PlanCreated);
        }
        if same_text(s, "plan.deleted") {
            return Some(EventType::PlanDeleted);
        }
        if same_text(s, "plan.updated") {
            return Some(EventType::PlanUpdated);
        }
        if same_text(s, "product.created") {
            return Some(EventType::ProductCreated);
        }
        if same_text(s, "product.deleted") {
            return Some(EventType::ProductDeleted);
        }
        if same_text(s, "product.updated") {
            return Some(EventType::ProductUpdated);
        }
        if same_text(s, "review.closed") {
            return Some(EventType::ReviewClosed);
        }
        if same_text(s, "review.opened") {
            return Some(EventType::ReviewOpened);
        }
        if same_text(s, "sigma.scheduled_query_run.created") {
            return Some(EventType::SigmaScheduledQueryRunCreated);
        }
        if same_text(s, "sku.created") {
            return Some(EventType::SkuCreated);
        }
        if same_text(s, "sku.deleted") {
            return Some(EventType::SkuDeleted);
        }
        if same_text(s, "sku.updated") {
            return Some(EventType::SkuUpdated);
        }
        if same_text(s, "source.canceled") {
            return Some(EventType::SourceCanceled);
        }
        if same_text(s, "source.chargeable") {
            return Some(EventType::Sourcechargeable);
        }
        if same_text(s, "source.failed") {
            return Some(EventType::SourceFailed);
        }
        if same_text(s, "source.transaction.created") {
            return Some(EventType::SourceTransactionCreated);
        }
        if same_text(s, "transfer.created") {
            return Some(EventType::TransferCreated);
        }
        if same_text(s, "transfer.reversed") {
            return Some(EventType::TransferReversed);
        }
        if same_text(s, "transfer.updated") {
            return Some(EventType::TransferUpdated);
        }
        assert forall|t: EventType| event_name(t) != s@ by {
            match t {
                EventType::AccountUpdated => {},
                EventType::AccountApplicationDeauthorized => {},
                EventType::AccountExternalAccountCreated => {},
                EventType::AccountExternalAccountDeleted => {},
                EventType::AccountExternalAccountUpdated => {},
                EventType::ApplicationFeeCreated => {},
                EventType::ApplicationFeeRefunded => {},
                EventType::ApplicationFeeRefundUpdated => {},
                EventType::BalanceAvailable => {},
                EventType::ChargeCaptured => {},
                EventType::ChargeFailed => {},
                EventType::ChargePending => {},
                EventType::ChargeRefunded => {},
                EventType::ChargeSucceeded => {},
                EventType::ChargeUpdated => {},
                EventType::ChargeDisputeClosed => {},
                EventType::ChargeDisputeCreated => {},
                EventType::ChargeDisputeFundsReinstated => {},
                EventType::ChargeDisputeFundsWithdrawn => {},
                EventType::ChargeDisputeUpdated => {},
                EventType::ChargeRefundUpdated => {},
                EventType::CouponCreated => {},
                EventType::CouponDeleted => {},
                EventType::CouponUpdated => {},
                EventType::CustomerCreated => {},
                EventType::CustomerDeleted => {},
                EventType::CustomerUpdated => {},
                EventType::CustomerDiscountCreated => {},
                EventType::CustomerDiscountDeleted => {},
                EventType::CustomerDiscountUpdated => {},
                EventType::CustomerSourceCreated => {},
                EventType::CustomerSourceDeleted => {},
                EventType::CustomerSourceUpdated => {},
                EventType::CustomerSubscriptionCreated => {},
                EventType::CustomerSubscriptionDeleted => {},
                EventType::CustomerSubscriptionTrialWillEnd => {},
                EventType::CustomerSubscriptionUpdated => {},
                EventType::FileCreated => {},
                EventType::InvoiceCreated => {},
                EventType::InvoicePaymentFailed => {},
                EventType::InvoicePaymentSucceeded => {},
                EventType::InvoiceUpdated => {},
                EventType::InvoiceUpcoming => {},
                EventType::InvoiceItemCreated => {},
                EventType::InvoiceItemDeleted => {},
                EventType::InvoiceItemUpdated => {},
                EventType::OrderCreated => {},
                EventType::OrderPaymentFailed => {},
                EventType::OrderPaymentSucceeded => {},
                EventType::OrderUpdated => {},
                EventType::OrderReturnUpdated => {},
                EventType::PayoutCanceled => {},
                EventType::PayoutCreated => {},
                EventType::PayoutFailed => {},
                EventType::PayoutPaid => {},
                EventType::PayoutUpdated => {},
                EventType::PlanCreated => {},
                EventType::PlanDeleted => {},
                EventType::PlanUpdated => {},
                EventType::ProductCreated => {},
                EventType::ProductDeleted => {},
                EventType::ProductUpdated => {},
                EventType::ReviewClosed => {},
                EventType::ReviewOpened => {},
                EventType::SigmaScheduledQueryRunCreated => {},
                EventType::SkuCreated => {},
                EventType::SkuDeleted => {},
                EventType::SkuUpdated => {},
                EventType::SourceCanceled => {},
                EventType::Sourcechargeable => {},
                EventType::SourceFailed => {},
                EventType::SourceTransactionCreated => {},
                EventType::TransferCreated => {},
                EventType::TransferReversed => {},
                EventType::TransferUpdated => {},
            }
        }
        None
    }
}

/// The object an event is about. Its tag selects the kind of resource; the
/// resource's fields are carried as they came.
#[derive(Debug, Clone)]
pub enum EventObject {
    Account(serde_json::Value),
    ApplicationFee(serde_json::Value),
    ApplicationFeeRefund(serde_json::Value),
    Balance(serde_json::Value),
    BankAccount(serde_json::Value),
    Charge(serde_json::Value),
    Dispute(serde_json::Value),
    File(serde_json::Value),
    Invoice(serde_json::Value),
    InvoiceItem(serde_json::Value),
    Order(serde_json::Value),
    OrderReturn(serde_json::Value),
    Payout(serde_json::Value),
    Plan(serde_json::Value),
    Product(serde_json::Value),
    Refund(serde_json::Value),
    Review(serde_json::Value),
    Sku(serde_json::Value),
    Subscription(serde_json::Value),
    Transaction(serde_json::Value),
    Transfer(serde_json::Value),
}

/// The tag (`object` field) under which a kind of resource is sent.
pub open spec fn object_tag(o: EventObject) -> Seq<char> {
    match o {
        EventObject::Account(_) => "account"@,
        EventObject::ApplicationFee(_) => "application_fee"@,
        EventObject::ApplicationFeeRefund(_) => "fee_refund"@,
        EventObject::Balance(_) => "balance"@,
        EventObject::BankAccount(_) => "bank_account"@,
        EventObject::Charge(_) => "charge"@,
        EventObject::Dispute(_) => "dispute"@,
        EventObject::File(_) => "file"@,
        EventObject::Invoice(_) => "invoice"@,
        EventObject::InvoiceItem(_) => "invoice_item"@,
        EventObject::Order(_) => "order"@,
        EventObject::OrderReturn(_) => "order_return"@,
        EventObject::Payout(_) => "payout"@,
        EventObject::Plan(_) => "plan"@,
        EventObject::Product(_) => "product"@,
        EventObject::Refund(_) => "refund"@,
        EventObject::Review(_) => "review"@,
        EventObject::Sku(_) => "sku"@,
        EventObject::Subscription(_) => "subscription"@,
        EventObject::Transaction(_) => "transaction"@,
        EventObject::Transfer(_) => "transfer"@,
    }
}

/// The fields of the resource an event is about.
pub open spec fn object_fields(o: EventObject) -> serde_json::Value {
    match o {
        EventObject::Account(v) => v,
        EventObject::ApplicationFee(v) => v,
        EventObject::ApplicationFeeRefund(v) => v,
        EventObject::Balance(v) => v,
        EventObject::BankAccount(v) => v,
        EventObject::Charge(v) => v,
        EventObject::Dispute(v) => v,
        EventObject::File(v) => v,
        EventObject::Invoice(v) => v,
        EventObject::InvoiceItem(v) => v,
        EventObject::Order(v) => v,
        EventObject::OrderReturn(v) => v,
        EventObject::Payout(v) => v,
        EventObject::Plan(v) => v,
        EventObject::Product(v) => v,
        EventObject::Refund(v) => v,
        EventObject::Review(v) => v,
        EventObject::Sku(v) => v,
        EventObject::Subscription(v) => v,
        EventObject::Transaction(v) => v,
        EventObject::Transfer(v) => v,
    }
}

/// Whether `s` is the tag of a kind of resource.
pub open spec fn known_object_tag(s: Seq<char>) -> bool {
    exists|o: EventObject| object_tag(o) == s
}

impl EventObject {
    /// The resource of kind `tag` with the given fields; `None` for a tag
    /// that names no kind of resource.
    pub fn from_tag(tag: &str, fields: serde_json::Value) -> (r: Option<EventObject>)
        ensures
            r matches Some(o) ==> object_tag(o) == tag@ && object_fields(o) == fields,
            r is None ==> !known_object_tag(tag@),
    {
        if same_text(tag, "account") {
            return Some(EventObject::Account(fields));
        }
        if same_text(tag, "application_fee") {
            return Some(EventObject::ApplicationFee(fields));
        }
        if same_text(tag, "fee_refund") {
            return Some(EventObject::ApplicationFeeRefund(fields));
        }
        if same_text(tag, "balance") {
            return Some(EventObject::Balance(fields));
        }
        if same_text(tag, "bank_account") {
            return Some(EventObject::BankAccount(fields));
        }
        if same_text(tag, "charge") {
            return Some(EventObject::Charge(fields));
        }
        if same_text(tag, "dispute") {
            return Some(EventObject::Dispute(fields));
        }
        if same_text(tag, "file") {
            return Some(EventObject::File(fields));
        }
        if same_text(tag, "invoice") {
            return Some(EventObject::Invoice(fields));
        }
        if same_text(tag, "invoice_item") {
            return Some(EventObject::InvoiceItem(fields));
        }
        if same_text(tag, "order") {
            return Some(EventObject::Order(fields));
        }
        if same_text(tag, "order_return") {
            return Some(EventObject::OrderReturn(fields));
        }
        if same_text(tag, "payout") {
            return Some(EventObject::Payout(fields));
        }
        if same_text(tag, "plan") {
            return Some(EventObject::Plan(fields));
        }
        if same_text(tag, "product") {
            return Some(EventObject::Product(fields));
        }
        if same_text(tag, "refund") {
            return Some(EventObject::Refund(fields));
        }
        if same_text(tag, "review") {
            return Some(EventObject::Review(fields));
        }
        if same_text(tag, "sku") {
            return Some(EventObject::Sku(fields));
        }
        if same_text(tag, "subscription") {
            return Some(EventObject::Subscription(fields));
        }
        if same_text(tag, "transaction") {
            return Some(EventObject::Transaction(fields));
        }
        if same_text(tag, "transfer") {
            return Some(EventObject::Transfer(fields));
        }
        assert forall|o: EventObject| object_tag(o) != tag@ by {
            match o {
                EventObject::Account(_) => {},
                EventObject::ApplicationFee(_) => {},
                EventObject::ApplicationFeeRefund(_) => {},
                EventObject::Balance(_) => {},
                EventObject::BankAccount(_) => {},
                EventObject::Charge(_) => {},
                EventObject::Dispute(_) => {},
                EventObject::File(_) => {},
                EventObject::Invoice(_) => {},
                EventObject::InvoiceItem(_) => {},
                EventObject::Order(_) => {},
                EventObject::OrderReturn(_) => {},
                EventObject::Payout(_) => {},
                EventObject::Plan(_) => {},
                EventObject::Product(_) => {},
                EventObject::Refund(_) => {},
                EventObject::Review(_) => {},
                EventObject::Sku(_) => {},
                EventObject::Subscription(_) => {},
                EventObject::Transaction(_) => {},
                EventObject::Transfer(_) => {},
            }
        }
        None
    }
}


/// The payload of an event.
#[derive(Debug, Clone)]
pub struct EventData {
    pub object: EventObject,
}

/// An event delivered by webhook.
#[derive(Debug, Clone)]
pub struct Event {
    pub event_type: EventType,
    pub data: EventData,
}

/// An event payload read as the event it describes: its type is sent under
/// `kind_name`, its object under `object_tag`.
pub open spec fn event_matches(e: Event, kind_name: Seq<char>, object_tag_text: Seq<char>) -> bool {
    event_name(e.event_type) == kind_name && object_tag(e.data.object) == object_tag_text
}

fn bad_parse(text: &str) -> (r: WebhookError)
    ensures
        r is BadParse,
{
    WebhookError::BadParse(text.to_owned())
}

/// The event name a payload carries under `type`, where it is a string.
pub open spec fn payload_kind(payload: Seq<char>) -> Option<Seq<char>> {
    match json_text_at(payload, "/type"@) {
        Some(Some(s)) => Some(s),
        _ => None,
    }
}

/// The tag a payload's object carries under `data.object.object`, where it
/// is a string.
pub open spec fn payload_tag(payload: Seq<char>) -> Option<Seq<char>> {
    match json_text_at(payload, "/data/object/object"@) {
        Some(Some(s)) => Some(s),
        _ => None,
    }
}

/// Whether a payload reads as an event: a known event name, an object
/// under `data.object`, and a known tag on that object.
pub open spec fn payload_ok(payload: Seq<char>) -> bool {
    &&& payload_kind(payload) is Some
    &&& known_event_type(payload_kind(payload)->Some_0)
    &&& json_object_at(payload, "/data/object"@)
    &&& payload_tag(payload) is Some
    &&& known_object_tag(payload_tag(payload)->Some_0)
}

/// Whether `e` is the event a payload describes.
pub open spec fn event_of_payload(e: Event, payload: Seq<char>) -> bool {
    event_matches(e, payload_kind(payload)->Some_0, payload_tag(payload)->Some_0)
}

impl Event {
    /// The event of type `kind_name` about an object tagged `object_tag`
    /// with the given fields. A name or a tag that is not known is a parse
    /// error: unknown events are refused, not dropped.
    pub fn from_parts(kind_name: &str, object_tag_text: &str, fields: serde_json::Value) -> (r: Result<Event, WebhookError>)
        ensures
            r is Ok <==> known_event_type(kind_name@) && known_object_tag(object_tag_text@),
            r matches Ok(e) ==> event_matches(e, kind_name@, object_tag_text@) && object_fields(
                e.data.object,
            ) == fields,
            r matches Err(err) ==> err is BadParse,
    {
        let event_type = match EventType::from_name(kind_name) {
            Some(t) => t,
            None => {
                return Err(bad_parse("unknown event type"));
            },
        };
        let object = match EventObject::from_tag(object_tag_text, fields) {
            Some(o) => o,
            None => {
                return Err(bad_parse("unknown object type"));
            },
        };
        Ok(Event { event_type, data: EventData { object } })
    }

    /// Reads a payload as an event: its `type` names the event, and the
    /// object under `data.object` is dispatched on its own `object` tag.
    pub fn from_payload(payload: &str) -> (r: Result<Event, WebhookError>)
        ensures
            r is Ok <==> payload_ok(payload@),
            r matches Ok(e) ==> event_of_payload(e, payload@),
            r matches Err(err) ==> err is BadParse,
    {
        let kind = match text_at(payload, "/type") {
            Some(Some(k)) => k,
            _ => {
                return Err(bad_parse("missing or malformed field `type`"));
            },
        };
        let fields = match object_at(payload, "/data/object") {
            Some(o) => o,
            None => {
                return Err(bad_parse("missing object under `data.object`"));
            },
        };
        let tag = match text_at(payload, "/data/object/object") {
            Some(Some(t)) => t,
            _ => {
                return Err(bad_parse("missing or malformed field `object`"));
            },
        };
        Event::from_parts(kind.as_str(), tag.as_str(), fields)
    }
}

/// Verification of webhook deliveries.
pub struct Webhook {}

/// Whether a delivery at time `now` is accepted as an event: it passes
/// verification and its payload reads as an event.
pub open spec fn event_accepted(payload: Seq<char>, sig: Seq<char>, secret: Seq<char>, now: i64) -> bool {
    verify_spec(encode_utf8(payload), encode_utf8(sig), encode_utf8(secret), now) is Ok && payload_ok(payload)
}

impl Webhook {
    /// Verifies a delivery at time `now`, then reads its payload as an
    /// event. The payload is read only once its signature and timestamp
    /// have been accepted.
    pub fn construct_event_at(payload: String, sig: String, secret: String, now: i64) -> (r: Result<Event, WebhookError>)
        ensures
            verify_spec(encode_utf8(payload@), encode_utf8(sig@), encode_utf8(secret@), now) matches Err(e) ==> r == Err::<Event, WebhookError>(e),
            verify_spec(encode_utf8(payload@), encode_utf8(sig@), encode_utf8(secret@), now) is Ok ==> (r is Ok || r->Err_0 is BadParse),
            r is Ok <==> event_accepted(payload@, sig@, secret@, now),
            r matches Ok(e) ==> event_of_payload(e, payload@),
    {
        match verify_signature(payload.as_str(), sig.as_str(), secret.as_str(), now) {
            Err(e) => {
                return Err(e);
            },
            Ok(_) => {},
        }
        Event::from_payload(payload.as_str())
    }

    /// Verifies a delivery against the current time, then reads its payload
    /// as an event. A malformed header and a signature that does not match
    /// are refused whatever the time.
    pub fn construct_event(payload: String, sig: String, secret: String) -> (r: Result<Event, WebhookError>)
        ensures
            r matches Err(WebhookError::BadHeader) <==> parse_header_spec(encode_utf8(sig@)) is None,
            r matches Err(WebhookError::BadSignature) <==> (forall|now: i64| verify_spec(encode_utf8(payload@), encode_utf8(sig@), encode_utf8(secret@), now) == Err::<i64, WebhookError>(WebhookError::BadSignature)),
            r matches Err(WebhookError::BadTimestamp(t)) ==> t == header_timestamp(encode_utf8(sig@)),
            r is Ok ==> payload_ok(payload@) && exists|now: i64| verify_spec(encode_utf8(payload@), encode_utf8(sig@), encode_utf8(secret@), now) is Ok,
            r matches Ok(e) ==> event_of_payload(e, payload@),
    {
        let now = unix_now();
        Webhook::construct_event_at(payload, sig, secret, now)
    }
}

/// A delivery signed as the service signs it, at most the tolerance window
/// old, whose payload reads as an event, is accepted as the event its
/// payload describes.
pub proof fn lemma_signed_event_accepted(
    payload: Seq<char>,
    sig: Seq<char>,
    secret: Seq<char>,
    timestamp_text: Seq<u8>,
    now: i64,
)
    requires
        parse_i64_spec(timestamp_text) is Some,
        now - parse_i64_spec(timestamp_text)->Some_0 <= TOLERANCE_SECS,
        encode_utf8(sig) == service_header(encode_utf8(payload), encode_utf8(secret), timestamp_text),
        payload_ok(payload),
    ensures
        event_accepted(payload, sig, secret, now),
{
    lemma_signed_delivery_accepted(encode_utf8(payload), encode_utf8(secret), timestamp_text, now);
}

} // verus!

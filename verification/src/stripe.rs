//! Card payments through Stripe: whether a payment intent went through.

use vstd::prelude::*;

verus! {

/// The state of a Stripe payment intent.
#[derive(Debug, Clone, Copy, PartialEq, Eq, Structural)]
pub enum PaymentIntentStatus {
    Canceled,
    Processing,
    RequiresAction,
    RequiresCapture,
    RequiresConfirmation,
    RequiresPaymentMethod,
    Succeeded,
}

/// Whether a payment intent in `status` has been paid.
pub fn is_payment_succeeded(status: PaymentIntentStatus) -> (res: bool)
    ensures
        res <==> status == PaymentIntentStatus::Succeeded,
{
    match status {
        PaymentIntentStatus::Succeeded => true,
        _ => false,
    }
}

} // verus!

use vstd::prelude::*;

verus! {

/// Why an instruction on an order was refused.
#[derive(Clone, Copy, Debug, PartialEq, Eq, Structural)]
pub enum BaggageError {
    /// The order's deadline has passed.
    OrderTimeout,
    /// The order's status does not allow the instruction.
    InvalidOrderStatus,
    /// The amount is zero, overflows, or exceeds what is left.
    InvalidAmount,
    /// The signer lacks the role the instruction needs.
    Unauthorized,
    /// The depositor's token account belongs to someone else.
    InvalidTokenAccountOwner,
    /// A token account holds another mint than the order's.
    InvalidTokenMint,
    /// The timeout lies outside the admitted range.
    InvalidTimeout,
    /// An order with this id and mint already exists.
    DuplicateOrder,
    /// An account's data is not a valid token account or mint.
    InvalidAccountData,
}

impl BaggageError {
    /// The text of the error's message.
    pub open spec fn message_text(self) -> Seq<char> {
        match self {
            BaggageError::OrderTimeout => "The order has timed out"@,
            BaggageError::InvalidOrderStatus => "The order status is invalid"@,
            BaggageError::InvalidAmount => "The amount is invalid"@,
            BaggageError::Unauthorized => "The operation is not authorized"@,
            BaggageError::InvalidTokenAccountOwner => "The token account owner does not match"@,
            BaggageError::InvalidTokenMint => "The token account mint does not match"@,
            BaggageError::InvalidTimeout => "The timeout is out of range"@,
            BaggageError::DuplicateOrder => "The order already exists"@,
            BaggageError::InvalidAccountData => "The account data is invalid"@,
        }
    }

    /// The error's message.
    pub fn message(&self) -> (r: &'static str)
        ensures
            r@ == self.message_text(),
    {
        match self {
            BaggageError::OrderTimeout => "The order has timed out",
            BaggageError::InvalidOrderStatus => "The order status is invalid",
            BaggageError::InvalidAmount => "The amount is invalid",
            BaggageError::Unauthorized => "The operation is not authorized",
            BaggageError::InvalidTokenAccountOwner => "The token account owner does not match",
            BaggageError::InvalidTokenMint => "The token account mint does not match",
            BaggageError::InvalidTimeout => "The timeout is out of range",
            BaggageError::DuplicateOrder => "The order already exists",
            BaggageError::InvalidAccountData => "The account data is invalid",
        }
    }
}

} // verus!

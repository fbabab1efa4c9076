use vstd::prelude::*;

verus! {

/// A 32-byte account address.
#[derive(Clone, Copy, Debug)]
pub struct Pubkey {
    pub bytes: [u8; 32],
}

impl View for Pubkey {
    type V = Seq<u8>;

    open spec fn view(&self) -> Seq<u8> {
        self.bytes@
    }
}

impl Pubkey {
    pub fn new_from_array(bytes: [u8; 32]) -> (r: Pubkey)
        ensures
            r@ == bytes@,
    {
        Pubkey { bytes }
    }

    pub fn to_bytes(&self) -> (r: [u8; 32])
        ensures
            r@ == self@,
    {
        self.bytes
    }

    /// The address's bytes, as a vector.
    pub fn to_vec(&self) -> (r: Vec<u8>)
        ensures
            r@ == self@,
    {
        let mut r: Vec<u8> = Vec::new();
        let mut i: usize = 0;
        while i < 32
            invariant
                0 <= i <= 32,
                self@.len() == 32,
                r@ == self@.subrange(0, i as int),
            decreases 32 - i,
        {
            r.push(self.bytes[i]);
            i = i + 1;
            assert(r@ =~= self@.subrange(0, i as int));
        }
        assert(r@ =~= self@);
        r
    }

    /// Whether the two addresses hold the same bytes.
    pub fn same_as(&self, other: &Pubkey) -> (r: bool)
        ensures
            r == (self@ == other@),
    {
        let mut i: usize = 0;
        while i < 32
            invariant
                0 <= i <= 32,
                self@.len() == 32,
                other@.len() == 32,
                forall|j: int| 0 <= j < i ==> self@[j] == other@[j],
            decreases 32 - i,
        {
            if self.bytes[i] != other.bytes[i] {
                return false;
            }
            i = i + 1;
        }
        assert(self@ =~= other@);
        true
    }
}

impl PartialEq for Pubkey {
    fn eq(&self, other: &Pubkey) -> (r: bool) {
        self.same_as(other)
    }
}

impl vstd::std_specs::cmp::PartialEqSpecImpl for Pubkey {
    open spec fn obeys_eq_spec() -> bool {
        true
    }

    open spec fn eq_spec(&self, other: &Pubkey) -> bool {
        self@ == other@
    }
}

impl Eq for Pubkey {
}

/// Where an order stands in its life.
#[derive(Clone, Copy, Debug, PartialEq, Eq, Structural)]
pub enum OrderStatus {
    Initialized,
    ReadyToExecute,
    Completed,
    Cancelled,
}

impl OrderStatus {
    /// The status's name.
    pub fn as_str(&self) -> (r: &'static str)
        ensures
            r@ == self.name(),
    {
        match self {
            OrderStatus::Initialized => "Initialized",
            OrderStatus::ReadyToExecute => "ReadyToExecute",
            OrderStatus::Completed => "Completed",
            OrderStatus::Cancelled => "Cancelled",
        }
    }

    pub open spec fn name(self) -> Seq<char> {
        match self {
            OrderStatus::Initialized => "Initialized"@,
            OrderStatus::ReadyToExecute => "ReadyToExecute"@,
            OrderStatus::Completed => "Completed"@,
            OrderStatus::Cancelled => "Cancelled"@,
        }
    }

    /// No instruction leads out of a completed or cancelled order.
    pub open spec fn is_terminal(self) -> bool {
        self == OrderStatus::Completed || self == OrderStatus::Cancelled
    }

    /// The place of the status along the order's life; it never goes back.
    pub open spec fn rank(self) -> int {
        match self {
            OrderStatus::Initialized => 0,
            OrderStatus::ReadyToExecute => 1,
            OrderStatus::Completed => 2,
            OrderStatus::Cancelled => 2,
        }
    }
}

/// One escrow order, stored in an account of its own.
#[derive(Clone, Copy, Debug)]
pub struct DepositOrder {
    pub order_id: u64,
    /// The depositor.
    pub user: Pubkey,
    /// What was locked at creation.
    pub amount: u64,
    /// The mint of the locked tokens.
    pub token_mint: Pubkey,
    /// Who may advance the order.
    pub keeper: Pubkey,
    pub status: OrderStatus,
    /// What has been released so far.
    pub completed_amount: u64,
    /// Seconds after creation at which the order expires.
    pub timeout: i64,
    /// Unix time of creation.
    pub creation_time: i64,
    /// The bump of the order account's derived address.
    pub bump: u8,
}

impl DepositOrder {
    /// What every order satisfies between instructions.
    pub open spec fn wf(self) -> bool {
        &&& self.completed_amount <= self.amount
        &&& self.status == OrderStatus::Initialized ==> self.completed_amount == 0
        &&& self.status == OrderStatus::Completed ==> self.completed_amount == self.amount
    }

    /// What the escrow holds for the order while it is open.
    pub open spec fn remaining(self) -> int {
        self.amount - self.completed_amount
    }

    /// Whether the order has expired at `now`.
    pub open spec fn expired_at(self, now: i64) -> bool {
        now > self.creation_time + self.timeout
    }

    /// The fields that no instruction changes after creation.
    pub open spec fn same_terms(self, other: DepositOrder) -> bool {
        &&& self.order_id == other.order_id
        &&& self.user@ == other.user@
        &&& self.amount == other.amount
        &&& self.token_mint@ == other.token_mint@
        &&& self.keeper@ == other.keeper@
        &&& self.timeout == other.timeout
        &&& self.creation_time == other.creation_time
        &&& self.bump == other.bump
    }
}

} // verus!

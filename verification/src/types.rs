use vstd::prelude::*;

verus! {

/// Whether a contract accepts operations.
#[derive(Clone, Copy, Debug, PartialEq, Eq, Structural)]
pub enum State {
    Inactive,
    Active,
    PartialActive,
}

impl State {
    /// Liquidity and farm operations are permitted in every state but
    /// `Inactive`.
    pub open spec fn permits_operations(self) -> bool {
        self != State::Inactive
    }

    /// Whether liquidity and farm operations are permitted.
    pub fn is_operational(&self) -> (r: bool)
        ensures
            r == self.permits_operations(),
    {
        match self {
            State::Inactive => false,
            State::Active => true,
            State::PartialActive => true,
        }
    }
}

/// The identifier of an asset: a byte string, compared by content. The empty
/// string names the native asset.
#[derive(Debug, PartialEq, Eq)]
pub struct TokenIdentifier {
    pub name: Vec<u8>,
}

impl View for TokenIdentifier {
    type V = Seq<u8>;

    open spec fn view(&self) -> Seq<u8> {
        self.name@
    }
}

impl Clone for TokenIdentifier {
    fn clone(&self) -> (r: Self)
        ensures
            r@ == self@,
    {
        let mut name: Vec<u8> = Vec::new();
        let mut i: usize = 0;
        while i < self.name.len()
            invariant
                i <= self.name.len(),
                name@ == self.name@.subrange(0, i as int),
            decreases self.name.len() - i,
        {
            name.push(self.name[i]);
            i = i + 1;
            assert(name@ == self.name@.subrange(0, i as int));
        }
        assert(name@ == self.name@);
        TokenIdentifier { name }
    }
}

impl TokenIdentifier {
    /// The identifier of the native asset.
    pub fn egld() -> (r: Self)
        ensures
            r@ == Seq::<u8>::empty(),
    {
        TokenIdentifier { name: Vec::new() }
    }

    /// The identifier with the given bytes.
    pub fn from_esdt_bytes(name: Vec<u8>) -> (r: Self)
        ensures
            r@ == name@,
    {
        TokenIdentifier { name }
    }

    /// Whether this is the identifier of the native asset.
    pub fn is_egld(&self) -> (r: bool)
        ensures
            r == (self@.len() == 0),
    {
        self.name.len() == 0
    }

    /// Whether two identifiers name the same asset.
    pub fn same_as(&self, other: &TokenIdentifier) -> (r: bool)
        ensures
            r == (self@ == other@),
    {
        if self.name.len() != other.name.len() {
            return false;
        }
        let mut i: usize = 0;
        while i < self.name.len()
            invariant
                i <= self.name.len(),
                self.name.len() == other.name.len(),
                forall|j: int| 0 <= j < i ==> self.name@[j] == other.name@[j],
            decreases self.name.len() - i,
        {
            if self.name[i] != other.name[i] {
                return false;
            }
            i = i + 1;
        }
        assert(self@ =~= other@);
        true
    }
}

/// The identity of a caller.
#[derive(Clone, Copy, Debug, PartialEq, Eq)]
pub struct Address {
    pub bytes: [u8; 32],
}

/// An amount of one asset. A fungible asset has nonce zero; a position token
/// has a nonce of its own.
#[derive(Debug, PartialEq, Eq)]
pub struct TokenPayment {
    pub token_identifier: TokenIdentifier,
    pub token_nonce: u64,
    pub amount: u128,
}

/// A payment as plain values: the bytes of its identifier, its nonce and its
/// amount.
pub struct PaymentView {
    pub token: Seq<u8>,
    pub nonce: u64,
    pub amount: u128,
}

impl View for TokenPayment {
    type V = PaymentView;

    open spec fn view(&self) -> PaymentView {
        PaymentView { token: self.token_identifier@, nonce: self.token_nonce, amount: self.amount }
    }
}

impl Clone for TokenPayment {
    fn clone(&self) -> (r: Self)
        ensures
            r@ == self@,
    {
        TokenPayment {
            token_identifier: self.token_identifier.clone(),
            token_nonce: self.token_nonce,
            amount: self.amount,
        }
    }
}

impl TokenPayment {
    /// A payment of `amount` of the asset `token_identifier` with nonce
    /// `token_nonce`.
    pub fn new(token_identifier: TokenIdentifier, token_nonce: u64, amount: u128) -> (r: Self)
        ensures
            r.token_identifier == token_identifier,
            r.token_nonce == token_nonce,
            r.amount == amount,
    {
        TokenPayment { token_identifier, token_nonce, amount }
    }
}

/// The payments of a list as plain values, in order.
pub open spec fn payment_views(payments: Seq<TokenPayment>) -> Seq<PaymentView> {
    payments.map_values(|p: TokenPayment| p@)
}

} // verus!

use vstd::prelude::*;

verus! {

/// Byte-wise equality of two byte strings.
pub fn bytes_eq(a: &Vec<u8>, b: &Vec<u8>) -> (r: bool)
    ensures
        r == (a@ == b@),
{
    if a.len() != b.len() {
        return false;
    }
    let n = a.len();
    let mut i: usize = 0;
    while i < n
        invariant
            n == a@.len(),
            n == b@.len(),
            i <= n,
            forall|j: int| 0 <= j < i ==> a@[j] == b@[j],
        decreases n - i,
    {
        if a[i] != b[i] {
            return false;
        }
        i = i + 1;
    }
    assert(a@ =~= b@);
    true
}

/// A fresh copy of a byte string.
pub fn copy_bytes(a: &Vec<u8>) -> (r: Vec<u8>)
    ensures
        r@ == a@,
{
    let mut out: Vec<u8> = Vec::new();
    let n = a.len();
    let mut i: usize = 0;
    while i < n
        invariant
            n == a@.len(),
            i <= n,
            out@ == a@.subrange(0, i as int),
        decreases n - i,
    {
        out.push(a[i]);
        i = i + 1;
        assert(out@ =~= a@.subrange(0, i as int));
    }
    assert(a@.subrange(0, n as int) =~= a@);
    out
}

/// A fresh copy of a list of identifiers.
pub fn copy_ids(a: &Vec<u64>) -> (r: Vec<u64>)
    ensures
        r@ == a@,
{
    let mut out: Vec<u64> = Vec::new();
    let n = a.len();
    let mut i: usize = 0;
    while i < n
        invariant
            n == a@.len(),
            i <= n,
            out@ == a@.subrange(0, i as int),
        decreases n - i,
    {
        out.push(a[i]);
        i = i + 1;
        assert(out@ =~= a@.subrange(0, i as int));
    }
    assert(a@.subrange(0, n as int) =~= a@);
    out
}

/// An account or contract address on the ledger, held as the raw bytes of
/// its canonical encoding. Two addresses are the same account exactly when
/// their bytes are equal.
#[derive(Clone, Debug, PartialEq, Eq)]
pub struct Address {
    pub raw: Vec<u8>,
}

impl View for Address {
    type V = Seq<u8>;

    open spec fn view(&self) -> Seq<u8> {
        self.raw@
    }
}

impl Address {
    pub fn from_bytes(raw: Vec<u8>) -> (r: Address)
        ensures
            r@ == raw@,
    {
        Address { raw }
    }

    /// Whether `self` and `other` name the same account.
    pub fn same(&self, other: &Address) -> (r: bool)
        ensures
            r == (self@ == other@),
    {
        bytes_eq(&self.raw, &other.raw)
    }

    /// A fresh copy of this address.
    pub fn copy(&self) -> (r: Address)
        ensures
            r@ == self@,
    {
        Address { raw: copy_bytes(&self.raw) }
    }
}

/// The abstract value of an invocation context.
pub struct EnvModel {
    pub sequence: u32,
    pub contract: Seq<u8>,
    pub authorized: Seq<Seq<u8>>,
}

impl EnvModel {
    /// The invocation carries the authorization of `who`.
    pub open spec fn authorizes(self, who: Seq<u8>) -> bool {
        self.authorized.contains(who)
    }
}

/// The context of one contract invocation: the ledger sequence number at
/// which it runs, the address of the invoked contract, and the addresses
/// whose authorization the invocation carries.
#[derive(Clone, Debug)]
pub struct Env {
    pub sequence: u32,
    pub contract: Address,
    pub authorized: Vec<Address>,
}

impl View for Env {
    type V = EnvModel;

    open spec fn view(&self) -> EnvModel {
        EnvModel {
            sequence: self.sequence,
            contract: self.contract@,
            authorized: self.authorized@.map_values(|a: Address| a@),
        }
    }
}

impl Env {
    pub fn new(sequence: u32, contract: Address, authorized: Vec<Address>) -> (r: Env)
        ensures
            r.sequence == sequence,
            r.contract == contract,
            r.authorized == authorized,
    {
        Env { sequence, contract, authorized }
    }

    /// The ledger sequence number of this invocation.
    pub fn sequence(&self) -> (r: u32)
        ensures
            r == self@.sequence,
    {
        self.sequence
    }

    /// Whether the invocation carries the authorization of `who`.
    pub fn is_authorized(&self, who: &Address) -> (r: bool)
        ensures
            r == self@.authorizes(who@),
    {
        let n = self.authorized.len();
        let mut i: usize = 0;
        while i < n
            invariant
                n == self.authorized@.len(),
                i <= n,
                forall|j: int| 0 <= j < i ==> self.authorized@[j]@ != who@,
            decreases n - i,
        {
            if self.authorized[i].same(who) {
                assert(self@.authorized[i as int] == who@);
                return true;
            }
            i = i + 1;
        }
        assert forall|j: int| 0 <= j < self@.authorized.len() implies self@.authorized[j] != who@ by {
            assert(self@.authorized[j] == self.authorized@[j]@);
        }
        false
    }

    /// Demands the authorization of `who`; without it the invocation fails.
    pub fn require_auth<E>(&self, who: &Address) -> (r: Result<(), Fault<E>>)
        ensures
            r == (if self@.authorizes(who@) {
                Ok::<(), Fault<E>>(())
            } else {
                Err(Fault::MissingAuth)
            }),
    {
        if self.is_authorized(who) {
            Ok(())
        } else {
            Err(Fault::MissingAuth)
        }
    }
}

/// Why an invocation failed. A failed invocation changes nothing.
#[derive(Clone, Copy, Debug, PartialEq, Eq)]
pub enum Fault<E> {
    /// The contract rejected the call with one of its own error codes.
    Contract(E),
    /// An address whose authorization the call demands did not authorize it.
    MissingAuth,
    /// The invocation trapped: a storage entry the call expects is missing,
    /// or an arithmetic operation overflowed.
    Abort,
}

} // verus!

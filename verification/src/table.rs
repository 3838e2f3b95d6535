//! What every code table has in common, and the laws that follow from it.
use vstd::prelude::*;
use vstd::std_specs::convert::FromSpec;

verus! {

/// A closed vocabulary whose members are told apart on the wire by an integer
/// code. One member, `unknown()`, has no code of its own and stands for every
/// code that the table does not list.
pub trait CodeTable: Sized + From<u64> {
    /// The member that absorbs every unlisted code.
    spec fn unknown() -> Self;

    /// The code that the table assigns to a member; `None` for `unknown()`.
    spec fn code(self) -> Option<u64>;

    /// The table read from code to member.
    spec fn decode_spec(code: u64) -> Self;

    /// `From<u64>` reads the table.
    proof fn lemma_from_reads_table(code: u64)
        ensures
            Self::obeys_from_spec(),
            Self::from_spec(code) == Self::decode_spec(code),
    ;

    /// `unknown()` is the one member without a code.
    proof fn lemma_only_unknown_has_no_code(v: Self)
        ensures
            v.code() is None <==> v == Self::unknown(),
    ;

    /// A member's own code reads back as that member.
    proof fn lemma_code_reads_back(v: Self, code: u64)
        requires
            v.code() == Some(code),
        ensures
            Self::decode_spec(code) == v,
    ;

    /// A code that does not read as `unknown()` is the code of what it reads
    /// as.
    proof fn lemma_known_keeps_code(code: u64)
        ensures
            Self::decode_spec(code) != Self::unknown() ==> Self::decode_spec(code).code() == Some(
                code,
            ),
    ;
}

/// Reads `code` in the table of `T`: the member that carries it, or
/// `unknown()` where none does. Every code is accepted.
pub fn decode<T: CodeTable>(code: u64) -> (v: T)
    ensures
        v == T::decode_spec(code),
        v.code() == Some(code) || (v == T::unknown() && forall|w: T| w.code() != Some(code)),
{
    proof {
        T::lemma_from_reads_table(code);
        lemma_unknown_iff_unlisted::<T>(code);
        T::lemma_known_keeps_code(code);
    }
    T::from(code)
}

/// A code reads as `unknown()` exactly when no member carries it.
pub proof fn lemma_unknown_iff_unlisted<T: CodeTable>(code: u64)
    ensures
        T::decode_spec(code) == T::unknown() <==> forall|v: T| v.code() != Some(code),
{
    T::lemma_known_keeps_code(code);
    T::lemma_only_unknown_has_no_code(T::decode_spec(code));
    if T::decode_spec(code) == T::unknown() {
        assert forall|v: T| v.code() != Some(code) by {
            if v.code() == Some(code) {
                T::lemma_code_reads_back(v, code);
            }
        }
    }
}

/// A code that some member carries reads as that member, which is not
/// `unknown()`.
pub proof fn lemma_listed_reads_member<T: CodeTable>(v: T, code: u64)
    requires
        v.code() == Some(code),
    ensures
        T::decode_spec(code) == v,
        T::decode_spec(code) != T::unknown(),
{
    T::lemma_code_reads_back(v, code);
    T::lemma_only_unknown_has_no_code(v);
}

/// Two codes that read as the same member, other than `unknown()`, are one
/// code.
pub proof fn lemma_decode_injective<T: CodeTable>(a: u64, b: u64)
    requires
        T::decode_spec(a) == T::decode_spec(b),
        T::decode_spec(a) != T::unknown(),
    ensures
        a == b,
{
    T::lemma_known_keeps_code(a);
    T::lemma_known_keeps_code(b);
}

/// No code belongs to two members.
pub proof fn lemma_code_injective<T: CodeTable>(v: T, w: T)
    requires
        v.code() is Some,
        v.code() == w.code(),
    ensures
        v == w,
{
    T::lemma_code_reads_back(v, v.code().unwrap());
    T::lemma_code_reads_back(w, v.code().unwrap());
}

/// Reading is a function of the code alone: equal codes read as equal members.
pub proof fn lemma_decode_deterministic<T: CodeTable>(a: u64, b: u64)
    requires
        a == b,
    ensures
        T::decode_spec(a) == T::decode_spec(b),
{
}

} // verus!

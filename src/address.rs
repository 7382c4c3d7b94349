//! Record addresses: identities, the seeds of each role, and derivation.

use vstd::prelude::*;
use anchor_lang::solana_program::pubkey::Pubkey;
use vstd::utf8::encode_utf8;
use crate::error::ErrorCode;

verus! {

/// A 32-byte account identity: a wallet key, a record address or a program id.
#[derive(Clone, Copy, Debug)]
pub struct Address {
    pub bytes: [u8; 32],
}

impl View for Address {
    type V = Seq<u8>;

    open spec fn view(&self) -> Seq<u8> {
        self.bytes@
    }
}

impl Address {
    /// The all-zero identity, which no caller can sign as.
    pub fn zero() -> (r: Address)
        ensures
            r@ == Seq::new(32, |i: int| 0u8),
    {
        let r = Address { bytes: [0u8; 32] };
        assert(r@ =~= Seq::new(32, |i: int| 0u8));
        r
    }

    pub open spec fn is_zero(&self) -> bool {
        self@ == Seq::new(32, |i: int| 0u8)
    }

    /// Byte-wise comparison of two identities.
    pub fn same_as(&self, other: &Address) -> (r: bool)
        ensures
            r == (self@ == other@),
    {
        let mut i: usize = 0;
        while i < 32
            invariant
                0 <= i <= 32,
                forall|j: int| 0 <= j < i ==> self.bytes@[j] == other.bytes@[j],
            decreases 32 - i,
        {
            if self.bytes[i] != other.bytes[i] {
                return false;
            }
            i = i + 1;
        }
        assert(self@ =~= other@);
        true
    }

    /// The identity's bytes, as used in an address seed.
    pub fn to_vec(&self) -> (r: Vec<u8>)
        ensures
            r@ == self@,
    {
        let mut v: Vec<u8> = Vec::new();
        let mut i: usize = 0;
        while i < 32
            invariant
                0 <= i <= 32,
                v@ == self@.subrange(0, i as int),
            decreases 32 - i,
        {
            v.push(self.bytes[i]);
            i = i + 1;
            assert(v@ =~= self@.subrange(0, i as int));
        }
        assert(self@.subrange(0, 32) =~= self@);
        v
    }
}

impl PartialEq for Address {
    fn eq(&self, other: &Address) -> (r: bool) {
        self.same_as(other)
    }
}

impl vstd::std_specs::cmp::PartialEqSpecImpl for Address {
    open spec fn obeys_eq_spec() -> bool {
        true
    }

    open spec fn eq_spec(&self, other: &Address) -> bool {
        self@ == other@
    }
}

impl Eq for Address {}

/// The address that a program derives from an ordered list of seeds, with its
/// bump, or `None` when no such address exists.
pub uninterp spec fn program_address_of(seeds: Seq<Seq<u8>>, program_id: Seq<u8>) -> Option<(Seq<u8>, u8)>;

pub const MAX_SEEDS: usize = 16;

pub const MAX_SEED_LEN: usize = 32;

/// The seeds cannot be derived from: too many, or one too long (the bump seed
/// is appended to them).
pub open spec fn seeds_out_of_bounds(seeds: Seq<Seq<u8>>) -> bool {
    seeds.len() + 1 > MAX_SEEDS || exists|i: int| 0 <= i < seeds.len() && seeds[i].len() > MAX_SEED_LEN
}

/// Relies on `Pubkey::try_find_program_address`: the search for a bump depends
/// on the seeds and the program id alone, and finds nothing when the seeds with
/// the bump appended are more than `MAX_SEEDS`, or one is longer than `MAX_SEED_LEN`.
#[verifier::external_body]
fn try_find_program_address(seeds: &Vec<Vec<u8>>, program_id: &Address) -> (r: Option<(Address, u8)>)
    ensures
        match r {
            Some((a, bump)) => program_address_of(seeds.deep_view(), program_id@) == Some((a@, bump)),
            None => program_address_of(seeds.deep_view(), program_id@) is None,
        },
        seeds_out_of_bounds(seeds.deep_view()) ==> r is None,
{
    let slices: Vec<&[u8]> = seeds.iter().map(|s| s.as_slice()).collect();
    let program = Pubkey::new_from_array(program_id.bytes);
    Pubkey::try_find_program_address(&slices, &program).map(|(k, bump)| (Address { bytes: k.to_bytes() }, bump))
}

/// What a record address is derived for. Each role has its own tag, the first
/// seed of every address of that role.
#[derive(Clone, Copy, Debug, PartialEq, Eq, Structural)]
pub enum Role {
    Creator,
    Username,
    Campaign,
    SupporterDonation,
    SupporterTransfer,
    SupporterTransferPayment,
}

/// The ASCII bytes of `creator`, `username`, `campaign`, `supporterDonation`,
/// `supporterTransfer` and `supporterTransferPayment`.
pub open spec fn role_tag(role: Role) -> Seq<u8> {
    match role {
        Role::Creator => seq![99, 114, 101, 97, 116, 111, 114],
        Role::Username => seq![117, 115, 101, 114, 110, 97, 109, 101],
        Role::Campaign => seq![99, 97, 109, 112, 97, 105, 103, 110],
        Role::SupporterDonation => seq![
            115, 117, 112, 112, 111, 114, 116, 101, 114,
            68, 111, 110, 97, 116, 105, 111, 110,
        ],
        Role::SupporterTransfer => seq![
            115, 117, 112, 112, 111, 114, 116, 101, 114,
            84, 114, 97, 110, 115, 102, 101, 114,
        ],
        Role::SupporterTransferPayment => seq![
            115, 117, 112, 112, 111, 114, 116, 101, 114,
            84, 114, 97, 110, 115, 102, 101, 114,
            80, 97, 121, 109, 101, 110, 116,
        ],
    }
}

/// Roles whose records are one per owner key; the others are numbered by a
/// per-creator counter.
pub open spec fn is_keyed_role(role: Role) -> bool {
    role is Creator || role is Username
}

impl Role {
    pub fn tag(&self) -> (r: Vec<u8>)
        ensures
            r@ == role_tag(*self),
    {
        let r = match self {
            Role::Creator => vec![99, 114, 101, 97, 116, 111, 114],
            Role::Username => vec![117, 115, 101, 114, 110, 97, 109, 101],
            Role::Campaign => vec![99, 97, 109, 112, 97, 105, 103, 110],
            Role::SupporterDonation => vec![
                115, 117, 112, 112, 111, 114, 116, 101, 114,
                68, 111, 110, 97, 116, 105, 111, 110,
            ],
            Role::SupporterTransfer => vec![
                115, 117, 112, 112, 111, 114, 116, 101, 114,
                84, 114, 97, 110, 115, 102, 101, 114,
            ],
            Role::SupporterTransferPayment => vec![
                115, 117, 112, 112, 111, 114, 116, 101, 114,
                84, 114, 97, 110, 115, 102, 101, 114,
                80, 97, 121, 109, 101, 110, 116,
            ],
        };
        assert(r@ =~= role_tag(*self));
        r
    }
}

/// The `count` low bytes of `n`, least significant first.
pub open spec fn le_bytes(n: nat, count: nat) -> Seq<u8>
    decreases count,
{
    if count == 0 {
        Seq::empty()
    } else {
        seq![(n % 256) as u8] + le_bytes(n / 256, (count - 1) as nat)
    }
}

/// The eight little-endian bytes of a counter, as used in an address seed.
pub fn u64_le_bytes(n: u64) -> (r: Vec<u8>)
    ensures
        r@ == le_bytes(n as nat, 8),
{
    let mut v: Vec<u8> = Vec::new();
    let mut x: u64 = n;
    let mut i: usize = 0;
    while i < 8
        invariant
            i <= 8,
            v@ + le_bytes(x as nat, (8 - i) as nat) == le_bytes(n as nat, 8),
        decreases 8 - i,
    {
        let ghost old_v = v@;
        let b: u8 = (x % 256) as u8;
        v.push(b);
        assert(le_bytes(x as nat, (8 - i) as nat) == seq![b] + le_bytes((x / 256) as nat, (8 - i - 1) as nat));
        assert(v@ + le_bytes((x / 256) as nat, (8 - i - 1) as nat) =~= old_v + le_bytes(x as nat, (8 - i) as nat));
        x = x / 256;
        i = i + 1;
    }
    assert(v@ + le_bytes(x as nat, 0) =~= v@);
    v
}

/// 256 to the power `k`.
pub open spec fn pow256(k: nat) -> nat
    decreases k,
{
    if k == 0 {
        1
    } else {
        256 * pow256((k - 1) as nat)
    }
}

proof fn lemma_le_bytes_len(n: nat, k: nat)
    ensures
        le_bytes(n, k).len() == k,
    decreases k,
{
    if k > 0 {
        lemma_le_bytes_len(n / 256, (k - 1) as nat);
    }
}

/// Below `256^k`, the `k` low bytes of a number determine it.
proof fn lemma_le_bytes_injective(a: nat, b: nat, k: nat)
    requires
        a < pow256(k),
        b < pow256(k),
        le_bytes(a, k) == le_bytes(b, k),
    ensures
        a == b,
    decreases k,
{
    if k > 0 {
        let p = pow256((k - 1) as nat);
        let tail_a = le_bytes(a / 256, (k - 1) as nat);
        let tail_b = le_bytes(b / 256, (k - 1) as nat);
        lemma_le_bytes_len(a / 256, (k - 1) as nat);
        lemma_le_bytes_len(b / 256, (k - 1) as nat);
        assert(le_bytes(a, k)[0] == (a % 256) as u8);
        assert(le_bytes(b, k)[0] == (b % 256) as u8);
        assert(le_bytes(a, k).subrange(1, k as int) =~= tail_a);
        assert(le_bytes(b, k).subrange(1, k as int) =~= tail_b);
        assert(a / 256 < p) by (nonlinear_arith)
            requires
                a < 256 * p,
        ;
        assert(b / 256 < p) by (nonlinear_arith)
            requires
                b < 256 * p,
        ;
        lemma_le_bytes_injective(a / 256, b / 256, (k - 1) as nat);
        assert(a == 256 * (a / 256) + a % 256) by (nonlinear_arith);
        assert(b == 256 * (b / 256) + b % 256) by (nonlinear_arith);
    }
}

/// Records numbered by distinct counters have distinct seeds: each new
/// campaign or receipt of a creator is looked for at a slot of its own.
pub proof fn lemma_distinct_counters_distinct_seeds(role: Role, key: Seq<u8>, first: u64, second: u64)
    requires
        !is_keyed_role(role),
        first != second,
    ensures
        role_seeds(role, key, first) != role_seeds(role, key, second),
{
    assert(pow256(8) == 0x1_0000_0000_0000_0000) by {
        reveal_with_fuel(pow256, 9);
    }
    if role_seeds(role, key, first) == role_seeds(role, key, second) {
        assert(role_seeds(role, key, first)[2] == le_bytes(first as nat, 8));
        assert(role_seeds(role, key, second)[2] == le_bytes(second as nat, 8));
        lemma_le_bytes_injective(first as nat, second as nat, 8);
    }
}

/// The UTF-8 bytes of a text, as used in an address seed.
pub fn text_bytes(s: &String) -> (r: Vec<u8>)
    ensures
        r@ == encode_utf8(s@),
{
    let b: &[u8] = s.as_str().as_bytes();
    let mut v: Vec<u8> = Vec::new();
    let mut i: usize = 0;
    while i < b.len()
        invariant
            i <= b@.len(),
            b@ == encode_utf8(s@),
            v@ == b@.subrange(0, i as int),
        decreases b@.len() - i,
    {
        v.push(b[i]);
        i = i + 1;
        assert(v@ =~= b@.subrange(0, i as int));
    }
    assert(b@.subrange(0, b@.len() as int) =~= b@);
    v
}

/// The seeds of a record's address: the role's tag and the owner key, then,
/// for a numbered record, the counter's eight little-endian bytes.
pub open spec fn role_seeds(role: Role, key: Seq<u8>, counter: u64) -> Seq<Seq<u8>> {
    if is_keyed_role(role) {
        seq![role_tag(role), key]
    } else {
        seq![role_tag(role), key, le_bytes(counter as nat, 8)]
    }
}

/// The address of a record of the given role, owner key and counter.
pub open spec fn record_address(role: Role, key: Seq<u8>, counter: u64, program_id: Seq<u8>) -> Option<(Seq<u8>, u8)> {
    program_address_of(role_seeds(role, key, counter), program_id)
}

pub fn seeds_for(role: Role, key: Vec<u8>, counter: u64) -> (r: Vec<Vec<u8>>)
    ensures
        r.deep_view() == role_seeds(role, key@, counter),
{
    let mut seeds: Vec<Vec<u8>> = Vec::new();
    let ghost key_view = key@;
    seeds.push(role.tag());
    seeds.push(key);
    let is_keyed = match role {
        Role::Creator | Role::Username => true,
        _ => false,
    };
    if !is_keyed {
        seeds.push(u64_le_bytes(counter));
    }
    proof {
        assert forall|i: int| 0 <= i < seeds@.len() implies seeds@[i].deep_view() =~= seeds@[i]@ by {}
    }
    assert(seeds.deep_view() =~= role_seeds(role, key_view, counter));
    seeds
}

/// An address derived for a record, with the bump that makes it valid.
#[derive(Clone, Copy, Debug)]
pub struct DerivedAddress {
    pub address: Address,
    pub bump: u8,
}

pub open spec fn derived_matches(r: Option<DerivedAddress>, expected: Option<(Seq<u8>, u8)>) -> bool {
    match r {
        Some(d) => expected == Some((d.address@, d.bump)),
        None => expected is None,
    }
}

/// Derives the address of a record from its role, owner key and counter (the
/// counter is not a seed of a creator's or a username's record).
pub fn derive_record_address(role: Role, key: Vec<u8>, counter: u64, program_id: &Address) -> (r: Option<DerivedAddress>)
    ensures
        derived_matches(r, record_address(role, key@, counter, program_id@)),
        key@.len() > MAX_SEED_LEN ==> r is None,
{
    let ghost key_view = key@;
    let seeds = seeds_for(role, key, counter);
    proof {
        if key_view.len() > MAX_SEED_LEN {
            assert(seeds.deep_view()[1] == key_view);
        }
    }
    match try_find_program_address(&seeds, program_id) {
        Some((address, bump)) => Some(DerivedAddress { address, bump }),
        None => None,
    }
}

/// Deriving an address twice from the same role and seeds gives the same
/// address and the same bump.
pub proof fn lemma_rederivation_is_stable(
    role: Role,
    key: Seq<u8>,
    counter: u64,
    program_id: Seq<u8>,
    first: Option<DerivedAddress>,
    second: Option<DerivedAddress>,
)
    requires
        derived_matches(first, record_address(role, key, counter, program_id)),
        derived_matches(second, record_address(role, key, counter, program_id)),
    ensures
        first is Some <==> second is Some,
        first is Some ==> first.unwrap().address@ == second.unwrap().address@ && first.unwrap().bump == second.unwrap().bump,
{
}

/// Whether an account stands at the address derived for a record: the bump
/// when it does.
pub open spec fn seeds_check(role: Role, key: Seq<u8>, counter: u64, program_id: Seq<u8>, at: Seq<u8>) -> Result<u8, ErrorCode> {
    match record_address(role, key, counter, program_id) {
        Some((a, bump)) => if a == at {
            Ok(bump)
        } else {
            Err(ErrorCode::ConstraintSeeds)
        },
        None => Err(ErrorCode::ConstraintSeeds),
    }
}

/// Checks that `at` is the address derived for a record, and returns its bump.
pub fn check_record_address(role: Role, key: Vec<u8>, counter: u64, program_id: &Address, at: &Address) -> (r: Result<u8, ErrorCode>)
    ensures
        r == seeds_check(role, key@, counter, program_id@, at@),
{
    match derive_record_address(role, key, counter, program_id) {
        Some(d) => if d.address.same_as(at) {
            Ok(d.bump)
        } else {
            Err(ErrorCode::ConstraintSeeds)
        },
        None => Err(ErrorCode::ConstraintSeeds),
    }
}

} // verus!

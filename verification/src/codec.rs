//! Byte layout of persisted records and of store key spaces.
//!
//! The store persists flat byte strings. This module fixes the layout of
//! keys and records, and proves that encoding and decoding invert each
//! other, so that identities and records round-trip exactly.

use vstd::prelude::*;
use vstd::bytes::{
    lemma_auto_spec_u64_to_from_le_bytes, spec_u64_from_le_bytes, spec_u64_to_le_bytes,
    u64_from_le_bytes, u64_to_le_bytes,
};
use vstd::slice::slice_subrange;
use vstd::string::StrSliceExecFns;
use vstd::utf8::{decode_utf8, encode_utf8, valid_utf8};
use crate::model::UserInfo;
use crate::address::UniversalWalletAddress;
use crate::model::ClaimsData;
use crate::network::TypedChainId;

verus! {

/// The decimal digits of `n`, most significant first, as ASCII bytes.
pub open spec fn spec_decimal_digits(n: nat) -> Seq<u8>
    decreases n,
{
    if n < 10 {
        seq![(n + 48) as u8]
    } else {
        spec_decimal_digits(n / 10) + seq![(n % 10 + 48) as u8]
    }
}

/// Decimal representations are never empty and hold digit bytes only.
pub proof fn lemma_decimal_digits_len(n: nat)
    ensures
        spec_decimal_digits(n).len() >= 1,
        n >= 10 ==> spec_decimal_digits(n).len() >= 2,
    decreases n,
{
    if n >= 10 {
        lemma_decimal_digits_len(n / 10);
    }
}

/// Distinct numbers have distinct decimal representations.
pub proof fn lemma_decimal_digits_injective(a: nat, b: nat)
    requires
        spec_decimal_digits(a) == spec_decimal_digits(b),
    ensures
        a == b,
    decreases a,
{
    lemma_decimal_digits_len(a);
    lemma_decimal_digits_len(b);
    let sa = spec_decimal_digits(a);
    let sb = spec_decimal_digits(b);
    if a < 10 && b < 10 {
        assert(sa[0] == (a + 48) as u8);
        assert(sb[0] == (b + 48) as u8);
        assert(a + 48 < 256 && b + 48 < 256);
        assert((a + 48) as u8 == a + 48);
        assert((b + 48) as u8 == b + 48);
    } else if a >= 10 && b >= 10 {
        assert(sa.last() == (a % 10 + 48) as u8);
        assert(sb.last() == (b % 10 + 48) as u8);
        assert(a % 10 + 48 < 256 && b % 10 + 48 < 256);
        assert(a % 10 == b % 10);
        assert(sa.drop_last() =~= spec_decimal_digits(a / 10));
        assert(sb.drop_last() =~= spec_decimal_digits(b / 10));
        lemma_decimal_digits_injective(a / 10, b / 10);
        vstd::arithmetic::div_mod::lemma_fundamental_div_mod(a as int, 10);
        vstd::arithmetic::div_mod::lemma_fundamental_div_mod(b as int, 10);
    } else if a < 10 {
        assert(spec_decimal_digits(b).len() >= 2);
        assert(false);
    } else {
        assert(spec_decimal_digits(a).len() >= 2);
        assert(false);
    }
}

/// The decimal digits of `n`, most significant first, as ASCII bytes.
pub fn u64_to_decimal(n: u64) -> (r: Vec<u8>)
    ensures
        r@ == spec_decimal_digits(n as nat),
    decreases n,
{
    if n < 10 {
        let mut v: Vec<u8> = Vec::new();
        v.push((n as u8) + 48);
        proof {
            assert(v@ =~= spec_decimal_digits(n as nat));
        }
        v
    } else {
        let mut v = u64_to_decimal(n / 10);
        v.push(((n % 10) as u8) + 48);
        proof {
            assert(v@ =~= spec_decimal_digits(n as nat));
        }
        v
    }
}

/// The byte name of the tree that keeps one chain's claims. The name holds
/// the chain family and the numeric id, so chains with equal numeric ids
/// in different families never share a tree.
pub open spec fn spec_claims_tree_name(chain: TypedChainId) -> Seq<u8> {
    match chain {
        TypedChainId::Evm(id) => seq![
            99u8, 108u8, 97u8, 105u8, 109u8, 115u8, 45u8, 101u8, 118u8, 109u8, 45u8,
        ] + spec_decimal_digits(id as nat),
        TypedChainId::Substrate(id) => seq![
            99u8, 108u8, 97u8, 105u8, 109u8, 115u8, 45u8, 115u8, 117u8, 98u8, 45u8,
        ] + spec_decimal_digits(id as nat),
    }
}

/// Distinct chains keep their claims in distinct trees: the key space is
/// partitioned by the full typed chain id, family included.
pub proof fn lemma_claims_tree_names_disjoint(c1: TypedChainId, c2: TypedChainId)
    requires
        c1 != c2,
    ensures
        spec_claims_tree_name(c1) != spec_claims_tree_name(c2),
{
    let n1 = spec_claims_tree_name(c1);
    let n2 = spec_claims_tree_name(c2);
    match (c1, c2) {
        (TypedChainId::Evm(a), TypedChainId::Evm(b)) => {
            if n1 == n2 {
                assert(n1.skip(11) =~= spec_decimal_digits(a as nat));
                assert(n2.skip(11) =~= spec_decimal_digits(b as nat));
                lemma_decimal_digits_injective(a as nat, b as nat);
            }
        },
        (TypedChainId::Substrate(a), TypedChainId::Substrate(b)) => {
            if n1 == n2 {
                assert(n1.skip(11) =~= spec_decimal_digits(a as nat));
                assert(n2.skip(11) =~= spec_decimal_digits(b as nat));
                lemma_decimal_digits_injective(a as nat, b as nat);
            }
        },
        (TypedChainId::Evm(_), TypedChainId::Substrate(_)) => {
            assert(n1[7] == 101u8);
            assert(n2[7] == 115u8);
        },
        (TypedChainId::Substrate(_), TypedChainId::Evm(_)) => {
            assert(n1[7] == 115u8);
            assert(n2[7] == 101u8);
        },
    }
}

/// The byte name of the tree that keeps one chain's claims.
pub fn claims_tree_name(chain: TypedChainId) -> (r: Vec<u8>)
    ensures
        r@ == spec_claims_tree_name(chain),
{
    let mut v: Vec<u8> = Vec::new();
    v.push(99u8);
    v.push(108u8);
    v.push(97u8);
    v.push(105u8);
    v.push(109u8);
    v.push(115u8);
    v.push(45u8);
    match chain {
        TypedChainId::Evm(_) => {
            v.push(101u8);
            v.push(118u8);
            v.push(109u8);
        },
        TypedChainId::Substrate(_) => {
            v.push(115u8);
            v.push(117u8);
            v.push(98u8);
        },
    }
    v.push(45u8);
    let mut digits = u64_to_decimal(chain.chain_id() as u64);
    v.append(&mut digits);
    proof {
        assert(v@ =~= spec_claims_tree_name(chain));
    }
    v
}

/// The byte name of the tree that keeps user records.
pub open spec fn spec_users_tree_name() -> Seq<u8> {
    seq![117u8, 115u8, 101u8, 114u8, 115u8]
}

/// The byte name of the tree that keeps user records.
pub fn users_tree_name() -> (r: Vec<u8>)
    ensures
        r@ == spec_users_tree_name(),
{
    let mut v: Vec<u8> = Vec::new();
    v.push(117u8);
    v.push(115u8);
    v.push(101u8);
    v.push(114u8);
    v.push(115u8);
    proof {
        assert(v@ =~= spec_users_tree_name());
    }
    v
}

/// The store key of one identity: its eight little-endian bytes. Key
/// encoding is injective, so identities round-trip exactly.
pub open spec fn spec_identity_key(id: u64) -> Seq<u8> {
    spec_u64_to_le_bytes(id)
}

/// The store key of one identity.
pub fn identity_key(id: u64) -> (r: Vec<u8>)
    ensures
        r@ == spec_identity_key(id),
        r@.len() == 8,
{
    proof {
        lemma_auto_spec_u64_to_from_le_bytes();
    }
    u64_to_le_bytes(id)
}

/// Two distinct identities never share a store key.
pub proof fn lemma_identity_key_injective(a: u64, b: u64)
    requires
        spec_identity_key(a) == spec_identity_key(b),
    ensures
        a == b,
{
    lemma_auto_spec_u64_to_from_le_bytes();
    assert(spec_u64_from_le_bytes(spec_u64_to_le_bytes(a)) == a);
    assert(spec_u64_from_le_bytes(spec_u64_to_le_bytes(b)) == b);
}

/// The byte encoding of a wallet address: a family tag, then the address
/// bytes.
pub open spec fn spec_encode_address(a: UniversalWalletAddress) -> Seq<u8> {
    match a {
        UniversalWalletAddress::Unknown => seq![0u8],
        UniversalWalletAddress::Ethereum(bytes) => seq![1u8] + bytes@,
        UniversalWalletAddress::Substrate(bytes) => seq![2u8] + bytes@,
    }
}

/// The byte encoding of one claim record: the identity, the claim time,
/// then the claimed address.
pub open spec fn spec_encode_claims_data(c: ClaimsData) -> Seq<u8> {
    spec_u64_to_le_bytes(c.identity) + spec_u64_to_le_bytes(c.last_claimed_date)
        + spec_encode_address(c.address)
}

/// Encodes one claim record for the store.
pub fn encode_claims_data(c: &ClaimsData) -> (r: Vec<u8>)
    ensures
        r@ == spec_encode_claims_data(*c),
{
    proof {
        lemma_auto_spec_u64_to_from_le_bytes();
    }
    let mut v = u64_to_le_bytes(c.identity);
    let mut ts = u64_to_le_bytes(c.last_claimed_date);
    v.append(&mut ts);
    let ghost prefix = v@;
    match &c.address {
        UniversalWalletAddress::Unknown => {
            v.push(0u8);
        },
        UniversalWalletAddress::Ethereum(bytes) => {
            v.push(1u8);
            let mut i: usize = 0;
            while i < 20
                invariant
                    i <= 20,
                    v@ =~= prefix + seq![1u8] + bytes@.take(i as int),
                decreases 20 - i,
            {
                v.push(bytes[i]);
                i += 1;
            }
            proof {
                assert(bytes@.take(20) =~= bytes@);
            }
        },
        UniversalWalletAddress::Substrate(bytes) => {
            v.push(2u8);
            let mut i: usize = 0;
            while i < 32
                invariant
                    i <= 32,
                    v@ =~= prefix + seq![2u8] + bytes@.take(i as int),
                decreases 32 - i,
            {
                v.push(bytes[i]);
                i += 1;
            }
            proof {
                assert(bytes@.take(32) =~= bytes@);
            }
        },
    }
    proof {
        assert(v@ =~= spec_encode_claims_data(*c));
    }
    v
}

/// What a well-formed record encoding decodes to. The identity and time
/// are read from the fixed prefix; the tag picks the address family; the
/// length must match the family exactly.
pub open spec fn spec_decode_claims_data(s: Seq<u8>) -> Option<(u64, u64, u8, Seq<u8>)> {
    if s.len() < 17 {
        None
    } else {
        let identity = spec_u64_from_le_bytes(s.subrange(0, 8));
        let date = spec_u64_from_le_bytes(s.subrange(8, 16));
        let tag = s[16];
        let addr = s.skip(17);
        if tag == 0 && addr.len() == 0 {
            Some((identity, date, tag, addr))
        } else if tag == 1 && addr.len() == 20 {
            Some((identity, date, tag, addr))
        } else if tag == 2 && addr.len() == 32 {
            Some((identity, date, tag, addr))
        } else {
            None
        }
    }
}

/// Decodes one stored record. Returns the record exactly when the bytes
/// are a well-formed encoding; `None` on any corrupt or mismatched bytes.
pub fn decode_claims_data(s: &Vec<u8>) -> (r: Option<ClaimsData>)
    ensures
        match r {
            Some(c) => spec_encode_claims_data(c) == s@,
            None => forall|c: ClaimsData| spec_encode_claims_data(c) != s@,
        },
{
    proof {
        lemma_auto_spec_u64_to_from_le_bytes();
    }
    if s.len() < 17 {
        proof {
            assert forall|c: ClaimsData| spec_encode_claims_data(c) != s@ by {
                lemma_encode_claims_data_len(c);
            }
        }
        return None;
    }
    let identity = u64_from_le_bytes(slice_subrange(s.as_slice(), 0, 8));
    let date = u64_from_le_bytes(slice_subrange(s.as_slice(), 8, 16));
    let tag = s[16];
    let n = s.len();
    if tag == 0 && n == 17 {
        let c = ClaimsData {
            identity,
            address: UniversalWalletAddress::Unknown,
            last_claimed_date: date,
        };
        proof {
            assert(spec_encode_claims_data(c) =~= s@);
        }
        Some(c)
    } else if tag == 1 && n == 37 {
        let mut bytes = [0u8; 20];
        let mut i: usize = 0;
        while i < 20
            invariant
                i <= 20,
                n == s@.len() == 37,
                forall|j: int| 0 <= j < i ==> bytes@[j] == s@[17 + j],
            decreases 20 - i,
        {
            bytes[i] = s[17 + i];
            i += 1;
        }
        let c = ClaimsData {
            identity,
            address: UniversalWalletAddress::Ethereum(bytes),
            last_claimed_date: date,
        };
        proof {
            assert(spec_encode_claims_data(c) =~= s@);
        }
        Some(c)
    } else if tag == 2 && n == 49 {
        let mut bytes = [0u8; 32];
        let mut i: usize = 0;
        while i < 32
            invariant
                i <= 32,
                n == s@.len() == 49,
                forall|j: int| 0 <= j < i ==> bytes@[j] == s@[17 + j],
            decreases 32 - i,
        {
            bytes[i] = s[17 + i];
            i += 1;
        }
        let c = ClaimsData {
            identity,
            address: UniversalWalletAddress::Substrate(bytes),
            last_claimed_date: date,
        };
        proof {
            assert(spec_encode_claims_data(c) =~= s@);
        }
        Some(c)
    } else {
        proof {
            assert forall|c: ClaimsData| spec_encode_claims_data(c) != s@ by {
                lemma_encode_claims_data_shape(c);
                if spec_encode_claims_data(c) == s@ {
                    assert(s@[16] == spec_encode_address(c.address)[0]);
                }
            }
        }
        None
    }
}

/// Every record encoding is at least seventeen bytes long.
pub proof fn lemma_encode_claims_data_len(c: ClaimsData)
    ensures
        spec_encode_claims_data(c).len() >= 17,
{
    vstd::bytes::lemma_auto_spec_u64_to_from_le_bytes();
}

/// The shape of every record encoding: its length and tag byte agree with
/// the address family.
pub proof fn lemma_encode_claims_data_shape(c: ClaimsData)
    ensures
        spec_encode_claims_data(c).len() >= 17,
        spec_encode_claims_data(c)[16] == spec_encode_address(c.address)[0],
        c.address is Unknown ==> spec_encode_claims_data(c).len() == 17 && spec_encode_claims_data(
            c,
        )[16] == 0,
        c.address is Ethereum ==> spec_encode_claims_data(c).len() == 37 && spec_encode_claims_data(
            c,
        )[16] == 1,
        c.address is Substrate ==> spec_encode_claims_data(c).len() == 49
            && spec_encode_claims_data(c)[16] == 2,
{
    vstd::bytes::lemma_auto_spec_u64_to_from_le_bytes();
}

/// Decoding inverts encoding: every record read back from its own bytes is
/// the record that was written.
pub proof fn lemma_claims_data_round_trip(c: ClaimsData)
    ensures
        spec_decode_claims_data(spec_encode_claims_data(c)) matches Some((identity, date, tag, addr))
            && identity == c.identity && date == c.last_claimed_date && seq![tag] + addr
            == spec_encode_address(c.address),
{
    lemma_auto_spec_u64_to_from_le_bytes();
    let s = spec_encode_claims_data(c);
    lemma_encode_claims_data_shape(c);
    assert(s.subrange(0, 8) =~= spec_u64_to_le_bytes(c.identity));
    assert(s.subrange(8, 16) =~= spec_u64_to_le_bytes(c.last_claimed_date));
    assert(seq![s[16]] + s.skip(17) =~= spec_encode_address(c.address));
}


/// The byte encoding of one user record: the identity, the tagged wallet
/// address, then the handle as UTF-8.
pub open spec fn spec_encode_user_info(u: UserInfo) -> Seq<u8> {
    match u {
        UserInfo::Twitter { id, handle, address } => spec_u64_to_le_bytes(id)
            + spec_encode_address(address) + encode_utf8(handle@),
    }
}

/// The shape of every user record encoding: its minimum length, the tag
/// byte, and its UTF-8 tail.
pub proof fn lemma_encode_user_info_shape(u: UserInfo)
    ensures
        spec_encode_user_info(u).len() >= 9,
        spec_encode_user_info(u)[8] == spec_encode_address(u.spec_address())[0],
        u.spec_address() is Unknown ==> spec_encode_user_info(u).len() >= 9
            && spec_encode_user_info(u)[8] == 0 && valid_utf8(spec_encode_user_info(u).skip(9)),
        u.spec_address() is Ethereum ==> spec_encode_user_info(u).len() >= 29
            && spec_encode_user_info(u)[8] == 1 && valid_utf8(spec_encode_user_info(u).skip(29)),
        u.spec_address() is Substrate ==> spec_encode_user_info(u).len() >= 41
            && spec_encode_user_info(u)[8] == 2 && valid_utf8(spec_encode_user_info(u).skip(41)),
{
    lemma_auto_spec_u64_to_from_le_bytes();
    broadcast use vstd::utf8::encode_utf8_valid_utf8;

    match u {
        UserInfo::Twitter { id, handle, address } => {
            let s = spec_encode_user_info(u);
            match address {
                UniversalWalletAddress::Unknown => {
                    assert(s.skip(9) =~= encode_utf8(handle@));
                },
                UniversalWalletAddress::Ethereum(b) => {
                    assert(s.skip(29) =~= encode_utf8(handle@));
                },
                UniversalWalletAddress::Substrate(b) => {
                    assert(s.skip(41) =~= encode_utf8(handle@));
                },
            }
        },
    }
}

/// Relies on String::from_utf8: it succeeds exactly on valid UTF-8 and
/// decodes those bytes to their characters.
#[verifier::external_body]
fn string_from_utf8(bytes: Vec<u8>) -> (r: Option<String>)
    ensures
        match r {
            Some(s) => valid_utf8(bytes@) && s@ == decode_utf8(bytes@),
            None => !valid_utf8(bytes@),
        },
{
    String::from_utf8(bytes).ok()
}

/// Encodes one user record for the store.
pub fn encode_user_info(u: &UserInfo) -> (r: Vec<u8>)
    ensures
        r@ == spec_encode_user_info(*u),
{
    proof {
        lemma_auto_spec_u64_to_from_le_bytes();
    }
    match u {
        UserInfo::Twitter { id, handle, address } => {
            let mut v = u64_to_le_bytes(*id);
            let ghost prefix = v@;
            match address {
                UniversalWalletAddress::Unknown => {
                    v.push(0u8);
                },
                UniversalWalletAddress::Ethereum(bytes) => {
                    v.push(1u8);
                    let mut i: usize = 0;
                    while i < 20
                        invariant
                            i <= 20,
                            v@ =~= prefix + seq![1u8] + bytes@.take(i as int),
                        decreases 20 - i,
                    {
                        v.push(bytes[i]);
                        i += 1;
                    }
                    proof {
                        assert(bytes@.take(20) =~= bytes@);
                    }
                },
                UniversalWalletAddress::Substrate(bytes) => {
                    v.push(2u8);
                    let mut i: usize = 0;
                    while i < 32
                        invariant
                            i <= 32,
                            v@ =~= prefix + seq![2u8] + bytes@.take(i as int),
                        decreases 32 - i,
                    {
                        v.push(bytes[i]);
                        i += 1;
                    }
                    proof {
                        assert(bytes@.take(32) =~= bytes@);
                    }
                },
            }
            let mut handle_bytes = handle.as_str().as_bytes_vec();
            v.append(&mut handle_bytes);
            proof {
                assert(v@ =~= spec_encode_user_info(*u));
            }
            v
        },
    }
}

/// Decodes one stored user record. Returns the record exactly when the
/// bytes are a well-formed encoding; `None` on any corrupt bytes.
pub fn decode_user_info(s: &Vec<u8>) -> (r: Option<UserInfo>)
    ensures
        match r {
            Some(u) => spec_encode_user_info(u) == s@,
            None => forall|u: UserInfo| spec_encode_user_info(u) != s@,
        },
{
    proof {
        lemma_auto_spec_u64_to_from_le_bytes();
    }
    if s.len() < 9 {
        proof {
            assert forall|u: UserInfo| spec_encode_user_info(u) != s@ by {
                lemma_encode_user_info_shape(u);
            }
        }
        return None;
    }
    let id = u64_from_le_bytes(slice_subrange(s.as_slice(), 0, 8));
    let tag = s[8];
    let n = s.len();
    if tag == 0 {
        let mut handle_bytes: Vec<u8> = Vec::new();
        let mut i: usize = 9;
        while i < n
            invariant
                9 <= i <= n,
                n == s@.len(),
                handle_bytes@ =~= s@.subrange(9, i as int),
            decreases n - i,
        {
            handle_bytes.push(s[i]);
            i += 1;
        }
        proof {
            assert(handle_bytes@ =~= s@.skip(9));
        }
        let ghost tail = s@.skip(9);
        match string_from_utf8(handle_bytes) {
            Some(handle) => {
                let u = UserInfo::Twitter {
                    id,
                    handle,
                    address: UniversalWalletAddress::Unknown,
                };
                proof {
                    vstd::utf8::decode_utf8_encode_utf8(tail);
                    assert(spec_encode_user_info(u) =~= s@);
                }
                Some(u)
            },
            None => {
                proof {
                    assert forall|u: UserInfo| spec_encode_user_info(u) != s@ by {
                        lemma_encode_user_info_shape(u);
                        if spec_encode_user_info(u) == s@ {
                            assert(s@[8] == spec_encode_address(u.spec_address())[0]);
                            assert(u.spec_address() is Unknown);
                            assert(valid_utf8(s@.skip(9)));
                        }
                    }
                }
                None
            },
        }
    } else if tag == 1 && n >= 29 {
        let mut addr = [0u8; 20];
        let mut i: usize = 0;
        while i < 20
            invariant
                i <= 20,
                n == s@.len() >= 29,
                forall|j: int| 0 <= j < i ==> addr@[j] == s@[9 + j],
            decreases 20 - i,
        {
            addr[i] = s[9 + i];
            i += 1;
        }
        let mut handle_bytes: Vec<u8> = Vec::new();
        let mut i2: usize = 29;
        while i2 < n
            invariant
                29 <= i2 <= n,
                n == s@.len(),
                handle_bytes@ =~= s@.subrange(29, i2 as int),
            decreases n - i2,
        {
            handle_bytes.push(s[i2]);
            i2 += 1;
        }
        proof {
            assert(handle_bytes@ =~= s@.skip(29));
        }
        let ghost tail = s@.skip(29);
        match string_from_utf8(handle_bytes) {
            Some(handle) => {
                let u = UserInfo::Twitter {
                    id,
                    handle,
                    address: UniversalWalletAddress::Ethereum(addr),
                };
                proof {
                    vstd::utf8::decode_utf8_encode_utf8(tail);
                    assert(spec_encode_user_info(u) =~= s@);
                }
                Some(u)
            },
            None => {
                proof {
                    assert forall|u: UserInfo| spec_encode_user_info(u) != s@ by {
                        lemma_encode_user_info_shape(u);
                        if spec_encode_user_info(u) == s@ {
                            assert(s@[8] == spec_encode_address(u.spec_address())[0]);
                            assert(u.spec_address() is Ethereum);
                            assert(valid_utf8(s@.skip(29)));
                        }
                    }
                }
                None
            },
        }
    } else if tag == 2 && n >= 41 {
        let mut addr = [0u8; 32];
        let mut i: usize = 0;
        while i < 32
            invariant
                i <= 32,
                n == s@.len() >= 41,
                forall|j: int| 0 <= j < i ==> addr@[j] == s@[9 + j],
            decreases 32 - i,
        {
            addr[i] = s[9 + i];
            i += 1;
        }
        let mut handle_bytes: Vec<u8> = Vec::new();
        let mut i2: usize = 41;
        while i2 < n
            invariant
                41 <= i2 <= n,
                n == s@.len(),
                handle_bytes@ =~= s@.subrange(41, i2 as int),
            decreases n - i2,
        {
            handle_bytes.push(s[i2]);
            i2 += 1;
        }
        proof {
            assert(handle_bytes@ =~= s@.skip(41));
        }
        let ghost tail = s@.skip(41);
        match string_from_utf8(handle_bytes) {
            Some(handle) => {
                let u = UserInfo::Twitter {
                    id,
                    handle,
                    address: UniversalWalletAddress::Substrate(addr),
                };
                proof {
                    vstd::utf8::decode_utf8_encode_utf8(tail);
                    assert(spec_encode_user_info(u) =~= s@);
                }
                Some(u)
            },
            None => {
                proof {
                    assert forall|u: UserInfo| spec_encode_user_info(u) != s@ by {
                        lemma_encode_user_info_shape(u);
                        if spec_encode_user_info(u) == s@ {
                            assert(s@[8] == spec_encode_address(u.spec_address())[0]);
                            assert(u.spec_address() is Substrate);
                            assert(valid_utf8(s@.skip(41)));
                        }
                    }
                }
                None
            },
        }
    } else {
        proof {
            assert forall|u: UserInfo| spec_encode_user_info(u) != s@ by {
                lemma_encode_user_info_shape(u);
                if spec_encode_user_info(u) == s@ {
                    assert(s@[8] == spec_encode_address(u.spec_address())[0]);
                }
            }
        }
        None
    }
}

} // verus!

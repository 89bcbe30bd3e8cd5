//! Key-less custody: the controller of an order's holding account is an
//! address derived from the order identifier, and the proof of control is
//! the list of seeds it was derived from.

use vstd::prelude::*;
use crate::state::Address;

verus! {

/// The ledger side an order lives on.
#[derive(Clone, Copy, Debug, PartialEq, Eq, Structural)]
pub enum Side {
    Source,
    Destination,
}

/// The derived controller of an order's holding accounts.
#[derive(Clone, Copy, Debug, PartialEq, Eq)]
pub struct CustodyAuthority {
    pub address: Address,
    /// The derivation index that the order record stores.
    pub bump: u8,
}

/// The address and index that the ledger derives for a program from a
/// list of seeds, or `None` where it derives none.
pub uninterp spec fn program_address(seeds: Seq<Seq<u8>>, program_id: Seq<u8>) -> Option<
    (Seq<u8>, u8),
>;

/// Calls `Pubkey::try_find_program_address` of `anchor_lang`'s
/// `solana_program` with the seeds as slices and the program's address.
/// Trusted: the result is a function of the seeds and the program alone.
#[verifier::external_body]
fn find_program_address(seeds: &Vec<Vec<u8>>, program_id: &[u8; 32]) -> (found: Option<
    ([u8; 32], u8),
>)
    ensures
        found is Some == program_address(seeds.deep_view(), program_id@) is Some,
        found is Some ==> found.unwrap().0@ == program_address(
            seeds.deep_view(),
            program_id@,
        ).unwrap().0,
        found is Some ==> found.unwrap().1 == program_address(
            seeds.deep_view(),
            program_id@,
        ).unwrap().1,
{
    let slices: Vec<&[u8]> = seeds.iter().map(|seed| seed.as_slice()).collect();
    let program = anchor_lang::prelude::Pubkey::new_from_array(*program_id);
    match anchor_lang::prelude::Pubkey::try_find_program_address(&slices, &program) {
        Some((address, bump)) => Some((address.to_bytes(), bump)),
        None => None,
    }
}

/// The bytes of `escrow_authority`, the domain tag of every derivation.
pub open spec fn escrow_authority_tag() -> Seq<u8> {
    seq![
        101u8, 115u8, 99u8, 114u8, 111u8, 119u8, 95u8, 97u8, 117u8, 116u8, 104u8, 111u8, 114u8,
        105u8, 116u8, 121u8,
    ]
}

/// The bytes of `token_source` and of `token_dest`, which keep the two
/// holding accounts of one order apart.
pub open spec fn holding_tag(side: Side) -> Seq<u8> {
    match side {
        Side::Source => seq![
            116u8, 111u8, 107u8, 101u8, 110u8, 95u8, 115u8, 111u8, 117u8, 114u8, 99u8, 101u8,
        ],
        Side::Destination => seq![
            116u8, 111u8, 107u8, 101u8, 110u8, 95u8, 100u8, 101u8, 115u8, 116u8,
        ],
    }
}

/// The bytes of `order_source` and of `order_destination`, the tags under
/// which the two records of one order are stored.
pub open spec fn record_tag(side: Side) -> Seq<u8> {
    match side {
        Side::Source => seq![
            111u8, 114u8, 100u8, 101u8, 114u8, 95u8, 115u8, 111u8, 117u8, 114u8, 99u8, 101u8,
        ],
        Side::Destination => seq![
            111u8, 114u8, 100u8, 101u8, 114u8, 95u8, 100u8, 101u8, 115u8, 116u8, 105u8, 110u8,
            97u8, 116u8, 105u8, 111u8, 110u8,
        ],
    }
}

/// The seeds of an order's record on one side: the side's tag, then the
/// identifier.
pub open spec fn record_seeds(order_id: Seq<u8>, side: Side) -> Seq<Seq<u8>> {
    seq![record_tag(side), order_id]
}

/// The seeds of an order's authority: the tag, then the identifier.
pub open spec fn authority_seeds(order_id: Seq<u8>) -> Seq<Seq<u8>> {
    seq![escrow_authority_tag(), order_id]
}

/// The seeds of an order's holding account on one side.
pub open spec fn holding_seeds(order_id: Seq<u8>, side: Side) -> Seq<Seq<u8>> {
    seq![escrow_authority_tag(), order_id, holding_tag(side)]
}

/// The seeds that sign for the authority: its own, then the stored index.
pub open spec fn signing_seeds(order_id: Seq<u8>, bump: u8) -> Seq<Seq<u8>> {
    seq![escrow_authority_tag(), order_id, seq![bump]]
}

fn authority_tag_bytes() -> (tag: Vec<u8>)
    ensures
        tag@ == escrow_authority_tag(),
{
    let tag: Vec<u8> = vec![
        101u8, 115u8, 99u8, 114u8, 111u8, 119u8, 95u8, 97u8, 117u8, 116u8, 104u8, 111u8, 114u8,
        105u8, 116u8, 121u8,
    ];
    proof {
        assert(tag@ =~= escrow_authority_tag());
    }
    tag
}

fn holding_tag_bytes(side: Side) -> (tag: Vec<u8>)
    ensures
        tag@ == holding_tag(side),
{
    match side {
        Side::Source => {
            let tag: Vec<u8> = vec![
                116u8, 111u8, 107u8, 101u8, 110u8, 95u8, 115u8, 111u8, 117u8, 114u8, 99u8, 101u8,
            ];
            proof {
                assert(tag@ =~= holding_tag(side));
            }
            tag
        },
        Side::Destination => {
            let tag: Vec<u8> = vec![
                116u8, 111u8, 107u8, 101u8, 110u8, 95u8, 100u8, 101u8, 115u8, 116u8,
            ];
            proof {
                assert(tag@ =~= holding_tag(side));
            }
            tag
        },
    }
}

fn record_tag_bytes(side: Side) -> (tag: Vec<u8>)
    ensures
        tag@ == record_tag(side),
{
    match side {
        Side::Source => {
            let tag: Vec<u8> = vec![
                111u8, 114u8, 100u8, 101u8, 114u8, 95u8, 115u8, 111u8, 117u8, 114u8, 99u8, 101u8,
            ];
            proof {
                assert(tag@ =~= record_tag(side));
            }
            tag
        },
        Side::Destination => {
            let tag: Vec<u8> = vec![
                111u8, 114u8, 100u8, 101u8, 114u8, 95u8, 100u8, 101u8, 115u8, 116u8, 105u8, 110u8,
                97u8, 116u8, 105u8, 111u8, 110u8,
            ];
            proof {
                assert(tag@ =~= record_tag(side));
            }
            tag
        },
    }
}

fn identifier_bytes(order_id: &[u8; 32]) -> (bytes: Vec<u8>)
    ensures
        bytes@ == order_id@,
{
    let mut bytes: Vec<u8> = Vec::new();
    let mut i: usize = 0;
    while i < 32
        invariant
            i <= 32,
            bytes@ == order_id@.subrange(0, i as int),
        decreases 32 - i,
    {
        bytes.push(order_id[i]);
        i += 1;
        proof {
            assert(bytes@ =~= order_id@.subrange(0, i as int));
        }
    }
    proof {
        assert(bytes@ =~= order_id@);
    }
    bytes
}

/// The seeds of the order's authority.
pub fn escrow_authority_seeds(order_id: &[u8; 32]) -> (seeds: Vec<Vec<u8>>)
    ensures
        seeds.deep_view() == authority_seeds(order_id@),
{
    let mut seeds: Vec<Vec<u8>> = Vec::new();
    seeds.push(authority_tag_bytes());
    seeds.push(identifier_bytes(order_id));
    proof {
        assert(seeds.deep_view() =~~= authority_seeds(order_id@));
    }
    seeds
}

/// The seeds of the order's record on `side`.
pub fn order_record_seeds(order_id: &[u8; 32], side: Side) -> (seeds: Vec<Vec<u8>>)
    ensures
        seeds.deep_view() == record_seeds(order_id@, side),
{
    let mut seeds: Vec<Vec<u8>> = Vec::new();
    seeds.push(record_tag_bytes(side));
    seeds.push(identifier_bytes(order_id));
    proof {
        assert(seeds.deep_view() =~~= record_seeds(order_id@, side));
    }
    seeds
}

/// The seeds of the order's holding account on `side`.
pub fn holding_account_seeds(order_id: &[u8; 32], side: Side) -> (seeds: Vec<Vec<u8>>)
    ensures
        seeds.deep_view() == holding_seeds(order_id@, side),
{
    let mut seeds: Vec<Vec<u8>> = Vec::new();
    seeds.push(authority_tag_bytes());
    seeds.push(identifier_bytes(order_id));
    seeds.push(holding_tag_bytes(side));
    proof {
        assert(seeds.deep_view() =~~= holding_seeds(order_id@, side));
    }
    seeds
}

/// The seeds to present when debiting the order's holding account.
pub fn signer_seeds(order_id: &[u8; 32], bump: u8) -> (seeds: Vec<Vec<u8>>)
    ensures
        seeds.deep_view() == signing_seeds(order_id@, bump),
{
    let mut seeds: Vec<Vec<u8>> = Vec::new();
    seeds.push(authority_tag_bytes());
    seeds.push(identifier_bytes(order_id));
    let mut index: Vec<u8> = Vec::new();
    index.push(bump);
    proof {
        assert(index@ =~= seq![bump]);
    }
    seeds.push(index);
    proof {
        assert(seeds.deep_view() =~~= signing_seeds(order_id@, bump));
    }
    seeds
}

/// The authority that a derivation stands for, if it gave one.
pub open spec fn authority_of(derived: Option<(Seq<u8>, u8)>, authority: Option<
    CustodyAuthority,
>) -> bool {
    match derived {
        Some((address, bump)) => authority is Some && authority.unwrap().address@ == address
            && authority.unwrap().bump == bump,
        None => authority is None,
    }
}

/// Derives the authority of an order under a program.
pub fn derive_authority(order_id: &[u8; 32], program_id: &Address) -> (authority: Option<
    CustodyAuthority,
>)
    ensures
        authority_of(program_address(authority_seeds(order_id@), program_id@), authority),
{
    let seeds = escrow_authority_seeds(order_id);
    match find_program_address(&seeds, program_id) {
        Some((address, bump)) => Some(CustodyAuthority { address, bump }),
        None => None,
    }
}

/// Derives the address of an order's holding account on `side`.
pub fn derive_holding_address(order_id: &[u8; 32], side: Side, program_id: &Address) -> (address:
    Option<Address>)
    ensures
        match program_address(holding_seeds(order_id@, side), program_id@) {
            Some((derived, _)) => address is Some && address.unwrap()@ == derived,
            None => address is None,
        },
{
    let seeds = holding_account_seeds(order_id, side);
    match find_program_address(&seeds, program_id) {
        Some((address, _)) => Some(address),
        None => None,
    }
}

/// Derives the address under which an order's record is stored on `side`.
pub fn derive_record_address(order_id: &[u8; 32], side: Side, program_id: &Address) -> (address:
    Option<Address>)
    ensures
        match program_address(record_seeds(order_id@, side), program_id@) {
            Some((derived, _)) => address is Some && address.unwrap()@ == derived,
            None => address is None,
        },
{
    let seeds = order_record_seeds(order_id, side);
    match find_program_address(&seeds, program_id) {
        Some((address, _)) => Some(address),
        None => None,
    }
}

/// Whether a presented address and a stored index are the ones derived.
pub fn proves_custody(
    derived: &Option<CustodyAuthority>,
    presented: &Address,
    stored_bump: u8,
) -> (proved: bool)
    ensures
        proved == (*derived is Some && derived.unwrap().address@ == presented@
            && derived.unwrap().bump == stored_bump),
{
    match derived {
        Some(authority) => crate::policy::bytes_equal(&authority.address, presented)
            && authority.bump == stored_bump,
        None => false,
    }
}

/// Whether `presented`, with the index that the order record stores, is
/// the authority of the order under the program.
pub fn is_custody_authority(
    order_id: &[u8; 32],
    program_id: &Address,
    presented: &Address,
    stored_bump: u8,
) -> (proved: bool)
    ensures
        proved == match program_address(authority_seeds(order_id@), program_id@) {
            Some((address, bump)) => address == presented@ && bump == stored_bump,
            None => false,
        },
{
    let derived = derive_authority(order_id, program_id);
    proves_custody(&derived, presented, stored_bump)
}

/// The two holding accounts of one order come from different seeds, and
/// neither from the seeds of the authority itself; the two records of one
/// order come from different seeds, and neither from the seeds of the
/// authority. Every seed list stays within sixteen seeds of at most 32
/// bytes.
pub proof fn custody_namespaces_differ(order_id: Seq<u8>, bump: u8)
    requires
        order_id.len() == 32,
    ensures
        record_seeds(order_id, Side::Source) != record_seeds(order_id, Side::Destination),
        record_seeds(order_id, Side::Source) != authority_seeds(order_id),
        record_seeds(order_id, Side::Destination) != authority_seeds(order_id),
        forall|side: Side, i: int|
            0 <= i < 2 ==> (#[trigger] record_seeds(order_id, side)[i]).len() <= 32,
        holding_seeds(order_id, Side::Source) != holding_seeds(order_id, Side::Destination),
        holding_seeds(order_id, Side::Source) != authority_seeds(order_id),
        holding_seeds(order_id, Side::Destination) != authority_seeds(order_id),
        forall|side: Side, i: int|
            0 <= i < 3 ==> (#[trigger] holding_seeds(order_id, side)[i]).len() <= 32,
        forall|i: int| 0 <= i < 3 ==> (#[trigger] signing_seeds(order_id, bump)[i]).len() <= 32,
        forall|i: int| 0 <= i < 2 ==> (#[trigger] authority_seeds(order_id)[i]).len() <= 32,
{
    assert(record_seeds(order_id, Side::Source)[0].len() == 12);
    assert(record_seeds(order_id, Side::Destination)[0].len() == 17);
    assert(authority_seeds(order_id)[0].len() == 16);
    assert(holding_seeds(order_id, Side::Source)[2].len() == 12);
    assert(holding_seeds(order_id, Side::Destination)[2].len() == 10);
    assert(holding_seeds(order_id, Side::Source).len() == 3);
    assert(authority_seeds(order_id).len() == 2);
}

} // verus!

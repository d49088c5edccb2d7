//! Where records lie: every record's address is derived from the program's
//! address and the record's keys.

use crate::address::Address;
use anchor_lang::prelude::Pubkey;
use vstd::prelude::*;
use vstd::slice::slice_to_vec;
use vstd::string::StringSliceAdditionalSpecFns;

verus! {

/// The longest seed, in bytes, that an address can be derived from.
pub const MAX_SEED_LEN: usize = 32;

/// The number of seeds at which a derivation gives up.
pub const MAX_SEEDS: usize = 16;

/// The address that a program derives from a list of seeds, with the bump seed
/// that completes the list, or `None` where the seeds have no address.
pub uninterp spec fn program_address(
    seeds: Seq<Seq<u8>>,
    program_id: Seq<u8>,
) -> Option<(Seq<u8>, u8)>;

/// A derived address and its bump seed, as plain bytes.
pub open spec fn address_bytes(found: Option<(Address, u8)>) -> Option<(Seq<u8>, u8)> {
    match found {
        Some((address, bump)) => Some((address@, bump)),
        None => None,
    }
}

/// Whether a list of seeds is too long, or holds a seed that is too long, to
/// have an address.
pub open spec fn seeds_out_of_range(seeds: Seq<Seq<u8>>) -> bool {
    ||| seeds.len() >= MAX_SEEDS
    ||| exists|i: int| 0 <= i < seeds.len() && (#[trigger] seeds[i]).len() > MAX_SEED_LEN
}

/// Calls `Pubkey::try_find_program_address`. The result is a function of the
/// seeds and the program's address alone, named `program_address`. The search
/// stops without an address at sixteen seeds or more, and at a seed of more
/// than thirty-two bytes.
#[verifier::external_body]
fn find_program_address(
    seeds: &Vec<Vec<u8>>,
    program_id: &Address,
) -> (found: Option<(Address, u8)>)
    ensures
        address_bytes(found) == program_address(seeds.deep_view(), program_id@),
        seeds_out_of_range(seeds.deep_view()) ==> found is None,
{
    let parts: Vec<&[u8]> = seeds.iter().map(|seed| seed.as_slice()).collect();
    let owner = Pubkey::new_from_array(program_id.bytes);
    let found = Pubkey::try_find_program_address(&parts, &owner);
    found.map(|(key, bump)| (Address { bytes: key.to_bytes() }, bump))
}

/// The seeds of the platform record: its tag alone.
pub open spec fn platform_seeds() -> Seq<Seq<u8>> {
    seq!["platform".spec_bytes()]
}

/// The seeds of a content record: its tag and the content's identifier.
pub open spec fn content_seeds(content_id: Seq<char>) -> Seq<Seq<u8>> {
    seq!["content".spec_bytes(), vstd::utf8::encode_utf8(content_id)]
}

/// The seeds of the license that a buyer holds on a content after a purchase.
pub open spec fn purchase_seeds(buyer: Address, content: Address) -> Seq<Seq<u8>> {
    seq!["purchase".spec_bytes(), buyer@, content@]
}

/// The seeds of the license that a renter holds on a content.
pub open spec fn rental_seeds(renter: Address, content: Address) -> Seq<Seq<u8>> {
    seq!["rental".spec_bytes(), renter@, content@]
}

/// The seeds of a subscriber's subscription.
pub open spec fn subscription_seeds(subscriber: Address) -> Seq<Seq<u8>> {
    seq!["subscription".spec_bytes(), subscriber@]
}

fn address_seed(address: &Address) -> (seed: Vec<u8>)
    ensures
        seed@ == address@,
{
    slice_to_vec(address.bytes.as_slice())
}

/// The seeds of the platform record.
pub fn platform_seed_list() -> (seeds: Vec<Vec<u8>>)
    ensures
        seeds.deep_view() == platform_seeds(),
{
    let mut seeds: Vec<Vec<u8>> = Vec::new();
    seeds.push(slice_to_vec("platform".as_bytes()));
    assert(seeds.deep_view() =~~= platform_seeds());
    seeds
}

/// The seeds of the content record with the identifier `content_id`.
pub fn content_seed_list(content_id: &str) -> (seeds: Vec<Vec<u8>>)
    ensures
        seeds.deep_view() == content_seeds(content_id@),
{
    let mut seeds: Vec<Vec<u8>> = Vec::new();
    seeds.push(slice_to_vec("content".as_bytes()));
    seeds.push(slice_to_vec(content_id.as_bytes()));
    assert(seeds.deep_view() =~~= content_seeds(content_id@));
    seeds
}

/// The seeds of the license that `buyer` gets by a purchase, or by a resale,
/// of the content at `content`.
pub fn purchase_seed_list(buyer: &Address, content: &Address) -> (seeds: Vec<Vec<u8>>)
    ensures
        seeds.deep_view() == purchase_seeds(*buyer, *content),
{
    let mut seeds: Vec<Vec<u8>> = Vec::new();
    seeds.push(slice_to_vec("purchase".as_bytes()));
    seeds.push(address_seed(buyer));
    seeds.push(address_seed(content));
    assert(seeds.deep_view() =~~= purchase_seeds(*buyer, *content));
    seeds
}

/// The seeds of the license that `renter` gets by renting the content at
/// `content`.
pub fn rental_seed_list(renter: &Address, content: &Address) -> (seeds: Vec<Vec<u8>>)
    ensures
        seeds.deep_view() == rental_seeds(*renter, *content),
{
    let mut seeds: Vec<Vec<u8>> = Vec::new();
    seeds.push(slice_to_vec("rental".as_bytes()));
    seeds.push(address_seed(renter));
    seeds.push(address_seed(content));
    assert(seeds.deep_view() =~~= rental_seeds(*renter, *content));
    seeds
}

/// The seeds of the subscription of `subscriber`.
pub fn subscription_seed_list(subscriber: &Address) -> (seeds: Vec<Vec<u8>>)
    ensures
        seeds.deep_view() == subscription_seeds(*subscriber),
{
    let mut seeds: Vec<Vec<u8>> = Vec::new();
    seeds.push(slice_to_vec("subscription".as_bytes()));
    seeds.push(address_seed(subscriber));
    assert(seeds.deep_view() =~~= subscription_seeds(*subscriber));
    seeds
}

/// The address of the platform record of the program at `program_id`, with
/// its bump seed.
pub fn find_platform_address(program_id: &Address) -> (found: Option<(Address, u8)>)
    ensures
        address_bytes(found) == program_address(platform_seeds(), program_id@),
{
    find_program_address(&platform_seed_list(), program_id)
}

/// The address of the content record with the identifier `content_id`, with
/// its bump seed. An identifier of more than `MAX_SEED_LEN` bytes has none.
pub fn find_content_address(
    program_id: &Address,
    content_id: &str,
) -> (found: Option<(Address, u8)>)
    ensures
        address_bytes(found) == program_address(content_seeds(content_id@), program_id@),
        content_id.spec_bytes().len() > MAX_SEED_LEN ==> found is None,
{
    let seeds = content_seed_list(content_id);
    assert(seeds.deep_view()[1] == content_id.spec_bytes());
    find_program_address(&seeds, program_id)
}

/// The address of the license that `buyer` gets by a purchase, or by a resale,
/// of the content at `content`, with its bump seed.
pub fn find_purchase_address(
    program_id: &Address,
    buyer: &Address,
    content: &Address,
) -> (found: Option<(Address, u8)>)
    ensures
        address_bytes(found) == program_address(purchase_seeds(*buyer, *content), program_id@),
{
    find_program_address(&purchase_seed_list(buyer, content), program_id)
}

/// The address of the license that `renter` gets by renting the content at
/// `content`, with its bump seed.
pub fn find_rental_address(
    program_id: &Address,
    renter: &Address,
    content: &Address,
) -> (found: Option<(Address, u8)>)
    ensures
        address_bytes(found) == program_address(rental_seeds(*renter, *content), program_id@),
{
    find_program_address(&rental_seed_list(renter, content), program_id)
}

/// The address of the subscription of `subscriber`, with its bump seed.
pub fn find_subscription_address(
    program_id: &Address,
    subscriber: &Address,
) -> (found: Option<(Address, u8)>)
    ensures
        address_bytes(found) == program_address(subscription_seeds(*subscriber), program_id@),
{
    find_program_address(&subscription_seed_list(subscriber), program_id)
}

/// The tags under which records are derived are five different byte strings.
proof fn lemma_tags_differ()
    ensures
        "content".spec_bytes() != "subscription".spec_bytes(),
        "purchase".spec_bytes() != "rental".spec_bytes(),
{
    reveal_strlit("content");
    reveal_strlit("subscription");
    reveal_strlit("purchase");
    reveal_strlit("rental");
    vstd::utf8::encode_utf8_decode_utf8("content"@);
    vstd::utf8::encode_utf8_decode_utf8("subscription"@);
    vstd::utf8::encode_utf8_decode_utf8("purchase"@);
    vstd::utf8::encode_utf8_decode_utf8("rental"@);
}

/// Records of different kinds never share their seeds: each kind has a tag of
/// its own. So a buyer can hold a purchase and a rental of one content.
pub proof fn lemma_seed_namespaces_differ(
    content_id: Seq<char>,
    buyer: Address,
    bought: Address,
    renter: Address,
    rented: Address,
    subscriber: Address,
)
    ensures
        platform_seeds() != content_seeds(content_id),
        platform_seeds() != purchase_seeds(buyer, bought),
        platform_seeds() != rental_seeds(renter, rented),
        platform_seeds() != subscription_seeds(subscriber),
        content_seeds(content_id) != purchase_seeds(buyer, bought),
        content_seeds(content_id) != rental_seeds(renter, rented),
        content_seeds(content_id) != subscription_seeds(subscriber),
        purchase_seeds(buyer, bought) != rental_seeds(renter, rented),
        purchase_seeds(buyer, bought) != subscription_seeds(subscriber),
        rental_seeds(renter, rented) != subscription_seeds(subscriber),
{
    lemma_tags_differ();
    assert(platform_seeds().len() == 1);
    assert(content_seeds(content_id).len() == 2);
    assert(subscription_seeds(subscriber).len() == 2);
    assert(purchase_seeds(buyer, bought).len() == 3);
    assert(rental_seeds(renter, rented).len() == 3);
    assert(content_seeds(content_id)[0] == "content".spec_bytes());
    assert(subscription_seeds(subscriber)[0] == "subscription".spec_bytes());
    assert(purchase_seeds(buyer, bought)[0] == "purchase".spec_bytes());
    assert(rental_seeds(renter, rented)[0] == "rental".spec_bytes());
}

/// Two contents with the same seeds have the same identifier.
pub proof fn lemma_content_seeds_injective(content_id: Seq<char>, other_id: Seq<char>)
    requires
        content_seeds(content_id) == content_seeds(other_id),
    ensures
        content_id == other_id,
{
    assert(content_seeds(content_id)[1] == content_seeds(other_id)[1]);
    vstd::utf8::encode_utf8_decode_utf8(content_id);
    vstd::utf8::encode_utf8_decode_utf8(other_id);
}

/// Two purchases with the same seeds are by the same buyer and of the same
/// content.
pub proof fn lemma_purchase_seeds_injective(
    buyer: Address,
    content: Address,
    other_buyer: Address,
    other_content: Address,
)
    requires
        purchase_seeds(buyer, content) == purchase_seeds(other_buyer, other_content),
    ensures
        buyer == other_buyer,
        content == other_content,
{
    assert(purchase_seeds(buyer, content)[1] == purchase_seeds(other_buyer, other_content)[1]);
    assert(purchase_seeds(buyer, content)[2] == purchase_seeds(other_buyer, other_content)[2]);
    buyer.lemma_view_injective(other_buyer);
    content.lemma_view_injective(other_content);
}

/// Two rentals with the same seeds are by the same renter and of the same
/// content.
pub proof fn lemma_rental_seeds_injective(
    renter: Address,
    content: Address,
    other_renter: Address,
    other_content: Address,
)
    requires
        rental_seeds(renter, content) == rental_seeds(other_renter, other_content),
    ensures
        renter == other_renter,
        content == other_content,
{
    assert(rental_seeds(renter, content)[1] == rental_seeds(other_renter, other_content)[1]);
    assert(rental_seeds(renter, content)[2] == rental_seeds(other_renter, other_content)[2]);
    renter.lemma_view_injective(other_renter);
    content.lemma_view_injective(other_content);
}

/// Two subscriptions with the same seeds are the same subscriber's.
pub proof fn lemma_subscription_seeds_injective(subscriber: Address, other: Address)
    requires
        subscription_seeds(subscriber) == subscription_seeds(other),
    ensures
        subscriber == other,
{
    assert(subscription_seeds(subscriber)[1] == subscription_seeds(other)[1]);
    subscriber.lemma_view_injective(other);
}

} // verus!

//! The maps that the Bolt client takes along with a request.
//!
//! `bolt_client` keeps the metadata of a message and the parameters of a
//! query in maps of its own, which can be built and handed on but not
//! looked into. This module declares them to the verifier and names what
//! they hold. What it states of them is taken on trust from the source of
//! `bolt_client` and `bolt_proto`; everything else in the crate is proved
//! from that.

use vstd::prelude::*;
use bolt_client::{Metadata, Params};
use crate::value::ValueView;

verus! {

/// `bolt_client::Metadata`: a map from names to Bolt values that goes with a
/// message. Nothing inside it is visible to the verifier.
#[verifier::external_type_specification]
#[verifier::external_body]
pub struct ExMetadata(Metadata);

/// `bolt_client::Params`: a map from names to Bolt values that binds the
/// parameters of a query. Nothing inside it is visible to the verifier.
#[verifier::external_type_specification]
#[verifier::external_body]
pub struct ExParams(Params);

/// What a `bolt_client::Metadata` holds: for each name in it, the value
/// that it gives to the name.
pub uninterp spec fn metadata_entries(metadata: Metadata) -> Map<Seq<char>, ValueView>;

/// What a `bolt_client::Params` holds: for each name in it, the value that
/// it gives to the name.
pub uninterp spec fn params_entries(params: Params) -> Map<Seq<char>, ValueView>;

/// No two pairs of `pairs` carry the same name.
pub open spec fn names_differ<V>(pairs: Seq<(String, V)>) -> bool {
    forall|i: int, j: int|
        0 <= i < j < pairs.len() ==> (#[trigger] pairs[i]).0@ != (#[trigger] pairs[j]).0@
}

/// The map that gives each name of `pairs` the string beside it.
pub open spec fn texts_as_map(pairs: Seq<(String, String)>) -> Map<Seq<char>, ValueView>
    decreases pairs.len(),
{
    if pairs.len() == 0 {
        Map::empty()
    } else {
        texts_as_map(pairs.drop_last()).insert(
            pairs.last().0@,
            ValueView::String(pairs.last().1@),
        )
    }
}

/// The map that gives each name of `pairs` the integer beside it.
pub open spec fn integers_as_map(pairs: Seq<(String, i64)>) -> Map<Seq<char>, ValueView>
    decreases pairs.len(),
{
    if pairs.len() == 0 {
        Map::empty()
    } else {
        integers_as_map(pairs.drop_last()).insert(
            pairs.last().0@,
            ValueView::Integer(pairs.last().1),
        )
    }
}

/// One more pair adds one entry to the map of [`texts_as_map`].
pub proof fn lemma_texts_as_map_push(pairs: Seq<(String, String)>, pair: (String, String))
    ensures
        texts_as_map(Seq::empty()) == Map::<Seq<char>, ValueView>::empty(),
        texts_as_map(pairs.push(pair)) == texts_as_map(pairs).insert(
            pair.0@,
            ValueView::String(pair.1@),
        ),
{
    assert(pairs.push(pair).drop_last() == pairs);
}

/// One more pair adds one entry to the map of [`integers_as_map`].
pub proof fn lemma_integers_as_map_push(pairs: Seq<(String, i64)>, pair: (String, i64))
    ensures
        integers_as_map(Seq::empty()) == Map::<Seq<char>, ValueView>::empty(),
        integers_as_map(pairs.push(pair)) == integers_as_map(pairs).insert(
            pair.0@,
            ValueView::Integer(pair.1),
        ),
{
    assert(pairs.push(pair).drop_last() == pairs);
}

/// Calls `from_iter` of `bolt_client::Metadata` on pairs of a name and a
/// string.
///
/// Taken on trust: the metadata holds exactly the names of the pairs, each
/// with its string as a Bolt string. `from_iter` collects the pairs into a
/// hash map, turning each string into `Value::String`; with no name twice,
/// no pair is lost.
#[verifier::external_body]
pub(crate) fn metadata_of_texts(pairs: Vec<(String, String)>) -> (metadata: Metadata)
    requires
        names_differ(pairs@),
    ensures
        metadata_entries(metadata) == texts_as_map(pairs@),
{
    Metadata::from_iter(pairs)
}

/// Calls `from_iter` of `bolt_client::Metadata` on pairs of a name and an
/// integer.
///
/// Taken on trust: the metadata holds exactly the names of the pairs, each
/// with its integer as a Bolt integer. `from_iter` collects the pairs into
/// a hash map, turning each integer into `Value::Integer`; with no name
/// twice, no pair is lost.
#[verifier::external_body]
pub(crate) fn metadata_of_integers(pairs: Vec<(String, i64)>) -> (metadata: Metadata)
    requires
        names_differ(pairs@),
    ensures
        metadata_entries(metadata) == integers_as_map(pairs@),
{
    Metadata::from_iter(pairs)
}

/// Calls `from_iter` of `bolt_client::Params` on pairs of a name and a
/// string.
///
/// Taken on trust: the parameters hold exactly the names of the pairs, each
/// with its string as a Bolt string. `from_iter` collects the pairs into a
/// hash map, turning each string into `Value::String`; with no name twice,
/// no pair is lost.
#[verifier::external_body]
pub(crate) fn params_of_texts(pairs: Vec<(String, String)>) -> (params: Params)
    requires
        names_differ(pairs@),
    ensures
        params_entries(params) == texts_as_map(pairs@),
{
    Params::from_iter(pairs)
}

} // verus!

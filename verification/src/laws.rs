//! What holds of every hub, stated over the view of the hub and proved.

use crate::digest::collides;
use crate::encoding::{
    fits_prefix, lemma_pair_encoding_injective, lemma_utf8_injective, pair_encoding,
};
use crate::hub::HubView;
use crate::pair::{account_identifier, pair_identifier};
use vstd::prelude::*;
use vstd::utf8::encode_utf8;

verus! {

/// Two pairs of identities that fit the length prefix have the same
/// identifier only if they are the same pair or their encodings are a
/// collision of the digest.
pub proof fn law_pair_identifiers_differ_up_to_collision(
    from1: Seq<char>,
    to1: Seq<char>,
    from2: Seq<char>,
    to2: Seq<char>,
)
    requires
        fits_prefix(from1),
        fits_prefix(to1),
        fits_prefix(from2),
        fits_prefix(to2),
    ensures
        pair_identifier(from1, to1) == pair_identifier(from2, to2) ==> {
            ||| from1 == from2 && to1 == to2
            ||| collides(pair_encoding(from1, to1), pair_encoding(from2, to2))
        },
{
    if pair_encoding(from1, to1) == pair_encoding(from2, to2) {
        lemma_pair_encoding_injective(from1, to1, from2, to2);
    }
}

/// Two identities have the same identifier only if they are the same
/// identity or their UTF-8 forms are a collision of the digest.
pub proof fn law_account_identifiers_differ_up_to_collision(a: Seq<char>, b: Seq<char>)
    ensures
        account_identifier(a) == account_identifier(b) ==> {
            ||| a == b
            ||| collides(encode_utf8(a), encode_utf8(b))
        },
{
    if encode_utf8(a) == encode_utf8(b) {
        lemma_utf8_injective(a, b);
    }
}

/// Direction matters: for two different identities that fit the length
/// prefix, the pair from `a` to `b` and the pair from `b` to `a` have
/// different encodings, and they have different identifiers unless the two
/// encodings are a collision of the digest.
pub proof fn law_pairs_are_directional(a: Seq<char>, b: Seq<char>)
    requires
        a != b,
        fits_prefix(a),
        fits_prefix(b),
    ensures
        pair_encoding(a, b) != pair_encoding(b, a),
        ({
            ||| pair_identifier(a, b) != pair_identifier(b, a)
            ||| collides(pair_encoding(a, b), pair_encoding(b, a))
        }),
{
    if pair_encoding(a, b) == pair_encoding(b, a) {
        lemma_pair_encoding_injective(a, b, b, a);
    }
}

/// Requests in opposite directions do not disturb each other: where the two
/// directions of a pair have different identifiers, after `a` requests `b`
/// with `x` and `b` requests `a` with `y`, each direction holds its own
/// request.
pub proof fn law_directions_are_independent(
    hub: HubView,
    a: Seq<char>,
    b: Seq<char>,
    x: Seq<char>,
    y: Seq<char>,
)
    ensures
        pair_identifier(a, b) != pair_identifier(b, a) ==> {
            let after = hub.make_request(a, b, x).make_request(b, a, y);
            &&& after.request(a, b) == Some(x)
            &&& after.request(b, a) == Some(y)
        },
{
}

/// A request is readable as soon as it is made, and making the same request
/// twice leaves the hub as making it once does.
pub proof fn law_request_overwrite_is_idempotent(
    hub: HubView,
    a: Seq<char>,
    b: Seq<char>,
    x: Seq<char>,
)
    ensures
        hub.make_request(a, b, x).request(a, b) == Some(x),
        hub.make_request(a, b, x).make_request(a, b, x).request(a, b) == Some(x),
        hub.make_request(a, b, x).make_request(a, b, x) == hub.make_request(a, b, x),
{
    let once = hub.make_request(a, b, x);
    let twice = once.make_request(a, b, x);
    assert(twice.requests =~= once.requests);
    assert(twice.responses =~= once.responses);
}

/// A later request for a pair takes the place of an earlier one.
pub proof fn law_latest_request_wins(
    hub: HubView,
    a: Seq<char>,
    b: Seq<char>,
    x: Seq<char>,
    y: Seq<char>,
)
    ensures
        hub.make_request(a, b, x).make_request(a, b, y).request(a, b) == Some(y),
        hub.make_request(a, b, x).make_request(a, b, y) == hub.make_request(a, b, y),
{
    let once = hub.make_request(a, b, y);
    let twice = hub.make_request(a, b, x).make_request(a, b, y);
    assert(twice.requests =~= once.requests);
    assert(twice.responses =~= once.responses);
}

/// A new request invalidates the response to the earlier one: after `a`
/// requests `b`, `b` answers, and `a` requests `b` again, the answer is
/// readable until the second request and absent after it.
pub proof fn law_new_request_clears_response(
    hub: HubView,
    a: Seq<char>,
    b: Seq<char>,
    first: Seq<char>,
    answer: Seq<char>,
    second: Seq<char>,
)
    ensures
        ({
            let answered = hub.make_request(a, b, first).respond(b, a, answer);
            let renewed = answered.make_request(a, b, second);
            &&& answered.request(a, b) == Some(first)
            &&& answered.response(a, b) == Some(answer)
            &&& renewed.request(a, b) == Some(second)
            &&& renewed.response(a, b) == None::<Seq<char>>
        }),
{
}

/// An exchange between `a` and `b` leaves every pair with another
/// identifier as it was, and leaves every public key as it was.
pub proof fn law_other_pairs_are_untouched(
    hub: HubView,
    a: Seq<char>,
    b: Seq<char>,
    c: Seq<char>,
    d: Seq<char>,
    first: Seq<char>,
    answer: Seq<char>,
    second: Seq<char>,
)
    ensures
        ({
            let after = hub.make_request(a, b, first).respond(b, a, answer).make_request(
                a,
                b,
                second,
            );
            &&& pair_identifier(c, d) != pair_identifier(a, b) ==> after.request(c, d)
                == hub.request(c, d) && after.response(c, d) == hub.response(c, d)
            &&& after.encryption_public_keys == hub.encryption_public_keys
        }),
{
}

/// A published key is readable under the identity that published it, and
/// publishing it leaves the key of every identity with another identifier,
/// every request and every response as they were.
pub proof fn law_key_roundtrip(hub: HubView, a: Seq<char>, b: Seq<char>, key: Seq<char>)
    ensures
        hub.set_key(a, key).key(a) == Some(key),
        account_identifier(b) != account_identifier(a) ==> hub.set_key(a, key).key(b) == hub.key(b),
        hub.set_key(a, key).requests == hub.requests,
        hub.set_key(a, key).responses == hub.responses,
{
}

/// A response is stored whether or not a request was made: after `b`
/// answers `a`, the answer is readable for the pair from `a` to `b`, and the
/// requests and the public keys are as they were.
pub proof fn law_respond_needs_no_request(
    hub: HubView,
    a: Seq<char>,
    b: Seq<char>,
    answer: Seq<char>,
)
    ensures
        hub.respond(b, a, answer).response(a, b) == Some(answer),
        hub.respond(b, a, answer).request(a, b) == hub.request(a, b),
        hub.respond(b, a, answer).requests == hub.requests,
        hub.respond(b, a, answer).encryption_public_keys == hub.encryption_public_keys,
{
}

/// No operation takes a request or a public key away: what is stored under
/// an identifier before a key is published, a request is made or a response
/// is given, is replaced or stays.
pub proof fn law_requests_and_keys_are_never_removed(
    hub: HubView,
    caller: Seq<char>,
    other: Seq<char>,
    payload: Seq<char>,
    id: Seq<u8>,
)
    ensures
        hub.request_at(id) is Some ==> hub.make_request(caller, other, payload).request_at(id)
            is Some,
        hub.request_at(id) is Some ==> hub.respond(caller, other, payload).request_at(id) is Some,
        hub.request_at(id) is Some ==> hub.set_key(caller, payload).request_at(id) is Some,
        hub.key_at(id) is Some ==> hub.make_request(caller, other, payload).key_at(id) is Some,
        hub.key_at(id) is Some ==> hub.respond(caller, other, payload).key_at(id) is Some,
        hub.key_at(id) is Some ==> hub.set_key(caller, payload).key_at(id) is Some,
{
}

/// A hub that holds nothing answers every lookup with absence.
pub proof fn law_empty_hub_holds_nothing(a: Seq<char>, b: Seq<char>)
    ensures
        HubView::empty().request(a, b) == None::<Seq<char>>,
        HubView::empty().response(a, b) == None::<Seq<char>>,
        HubView::empty().key(a) == None::<Seq<char>>,
{
}

} // verus!

//! Reverse geocoding: from a position to the name of a place.
//!
//! The lookup itself is a network call and belongs to the caller. This module
//! says which address to ask and what the answer means.

use crate::text::{lemma_mismatch, lemma_replaced_once, replace_all, replaced, starts_at};
use vstd::prelude::*;

verus! {

/// The lookup address, with a name in braces in the place of each of longitude,
/// latitude and access token.
pub const ENDPOINT_TEMPLATE: &'static str =
    "https://api.mapbox.com/geocoding/v5/mapbox.places/{lon_dec},{lat_dec}.json?types=place&language=ro&access_token={access_token}";

/// The reason given when the service answers without any place.
pub const EMPTY_RESPONSE: &'static str = "empty response";

#[derive(Debug)]
pub struct Geocoder {
    mapbox_reverse_geocoder_url: String,
}

/// What a lookup yields: the first place of a non-empty answer, a fixed reason
/// for an empty one, and the transport's own reason where the call failed.
pub open spec fn address_of(reply: Result<Seq<Seq<char>>, Seq<char>>) -> Result<
    Seq<char>,
    Seq<char>,
> {
    match reply {
        Ok(places) => if places.len() > 0 {
            Ok(places[0])
        } else {
            Err(EMPTY_RESPONSE@)
        },
        Err(reason) => Err(reason),
    }
}

/// The reply as a value of sequences.
pub open spec fn reply_view(reply: Result<Vec<String>, String>) -> Result<
    Seq<Seq<char>>,
    Seq<char>,
> {
    match reply {
        Ok(places) => Ok(Seq::new(places@.len(), |i: int| places@[i]@)),
        Err(reason) => Err(reason@),
    }
}

/// An address or a reason as a value of sequences.
pub open spec fn outcome_view(outcome: Result<String, String>) -> Result<Seq<char>, Seq<char>> {
    match outcome {
        Ok(address) => Ok(address@),
        Err(reason) => Err(reason@),
    }
}

impl Geocoder {
    /// The lookup address with the access token filled in.
    pub closed spec fn endpoint(&self) -> Seq<char> {
        self.mapbox_reverse_geocoder_url@
    }

    /// The geocoder was made with this access token.
    pub open spec fn made_with(&self, key: Seq<char>) -> bool {
        self.endpoint() == replaced(ENDPOINT_TEMPLATE@, "{access_token}"@, key)
    }

    /// The address to ask for a position given as two decimal texts.
    pub open spec fn url_for(&self, latitude: Seq<char>, longitude: Seq<char>) -> Seq<char> {
        replaced(replaced(self.endpoint(), "{lat_dec}"@, latitude), "{lon_dec}"@, longitude)
    }

    pub fn new(mapbox_api_key: String) -> (geocoder: Self)
        ensures
            geocoder.made_with(mapbox_api_key@),
            geocoder.endpoint() == address_head() + "{lon_dec}"@ + ","@ + "{lat_dec}"@
                + address_tail() + mapbox_api_key@,
    {
        proof {
            lemma_endpoint(mapbox_api_key@);
        }
        proof {
            reveal_strlit("{access_token}");
        }
        Geocoder {
            mapbox_reverse_geocoder_url: replace_all(
                ENDPOINT_TEMPLATE,
                "{access_token}",
                mapbox_api_key.as_str(),
            ),
        }
    }

    /// The address to request for a position whose coordinates are written as
    /// decimal degrees.
    pub fn request_url(&self, latitude_dec: &str, longitude_dec: &str) -> (url: String)
        ensures
            url@ == self.url_for(latitude_dec@, longitude_dec@),
            forall|key: Seq<char>|
                #![trigger self.made_with(key)]
                self.made_with(key) && braceless(key) && braceless(latitude_dec@) ==> url@
                    == address(key, latitude_dec@, longitude_dec@),
    {
        proof {
            assert forall|key: Seq<char>|
                #![trigger self.made_with(key)]
                self.made_with(key) && braceless(key) && braceless(
                    latitude_dec@,
                ) implies self.url_for(latitude_dec@, longitude_dec@) == address(
                key,
                latitude_dec@,
                longitude_dec@,
            ) by {
                lemma_address(key, latitude_dec@, longitude_dec@);
            }
        }
        proof {
            reveal_strlit("{lat_dec}");
            reveal_strlit("{lon_dec}");
        }
        let with_latitude = replace_all(
            self.mapbox_reverse_geocoder_url.as_str(),
            "{lat_dec}",
            latitude_dec,
        );
        replace_all(with_latitude.as_str(), "{lon_dec}", longitude_dec)
    }

    /// Reads the outcome of a lookup: the names of the places found, in the
    /// order of the answer, or the reason why the call or its decoding failed.
    pub fn read_reply(reply: Result<Vec<String>, String>) -> (address: Result<String, String>)
        ensures
            outcome_view(address) == address_of(reply_view(reply)),
    {
        match reply {
            Ok(places) => {
                if places.len() > 0 {
                    Ok(places[0].clone())
                } else {
                    Err(EMPTY_RESPONSE.to_string())
                }
            },
            Err(reason) => Err(reason),
        }
    }
}

impl Default for Geocoder {
    fn default() -> (geocoder: Self)
        ensures
            geocoder.endpoint() == Seq::<char>::empty(),
    {
        Geocoder { mapbox_reverse_geocoder_url: String::new() }
    }
}

/// What the lookup address starts with, up to the position.
pub open spec fn address_head() -> Seq<char> {
    "https://api.mapbox.com/geocoding/v5/mapbox.places/"@
}

/// What follows the position in the lookup address, up to the access token.
pub open spec fn address_tail() -> Seq<char> {
    ".json?types=place&language=ro&access_token="@
}

/// The text has no opening brace.
pub open spec fn braceless(text: Seq<char>) -> bool {
    forall|i: int| 0 <= i < text.len() ==> text[i] != '{'
}

/// The template is its head, the two names of the position with a comma
/// between them, its tail, and the name of the access token.
proof fn lemma_template()
    ensures
        ENDPOINT_TEMPLATE@ == address_head() + "{lon_dec}"@ + ","@ + "{lat_dec}"@ + address_tail()
            + "{access_token}"@,
        braceless(address_head()),
        braceless(address_tail()),
        braceless(","@),
        address_head().len() == 50,
        address_tail().len() == 43,
        "{lon_dec}"@ == seq!['{', 'l', 'o', 'n', '_', 'd', 'e', 'c', '}'],
        "{lat_dec}"@ == seq!['{', 'l', 'a', 't', '_', 'd', 'e', 'c', '}'],
        "{access_token}"@.len() == 14,
        "{access_token}"@[0] == '{',
        "{access_token}"@[1] == 'a',
        ","@ == seq![','],
{
    reveal_strlit(
        "https://api.mapbox.com/geocoding/v5/mapbox.places/{lon_dec},{lat_dec}.json?types=place&language=ro&access_token={access_token}",
    );
    reveal_strlit("https://api.mapbox.com/geocoding/v5/mapbox.places/");
    reveal_strlit(".json?types=place&language=ro&access_token=");
    reveal_strlit("{lon_dec}");
    reveal_strlit("{lat_dec}");
    reveal_strlit("{access_token}");
    reveal_strlit(",");
    assert(ENDPOINT_TEMPLATE@ =~= address_head() + "{lon_dec}"@ + ","@ + "{lat_dec}"@
        + address_tail() + "{access_token}"@);
    assert("{lon_dec}"@ =~= seq!['{', 'l', 'o', 'n', '_', 'd', 'e', 'c', '}']);
    assert("{lat_dec}"@ =~= seq!['{', 'l', 'a', 't', '_', 'd', 'e', 'c', '}']);
    assert(","@ =~= seq![',']);
}

/// The address of a lookup, written out: head, longitude, a comma,
/// latitude, tail and access token.
pub open spec fn address(key: Seq<char>, latitude: Seq<char>, longitude: Seq<char>) -> Seq<char> {
    address_head() + longitude + ","@ + latitude + address_tail() + key
}

/// A geocoder keeps the template with the access token at its end, whatever
/// the token is.
pub proof fn lemma_endpoint(key: Seq<char>)
    ensures
        replaced(ENDPOINT_TEMPLATE@, "{access_token}"@, key) == address_head() + "{lon_dec}"@
            + ","@ + "{lat_dec}"@ + address_tail() + key,
{
    lemma_template();
    let pattern = "{access_token}"@;
    let before = address_head() + "{lon_dec}"@ + ","@ + "{lat_dec}"@ + address_tail();
    let after = Seq::<char>::empty();
    let text = before + pattern + after;
    assert(text =~= ENDPOINT_TEMPLATE@);
    assert forall|at: int| 0 <= at < before.len() implies !starts_at(text, pattern, at) by {
        if text[at] != '{' {
            lemma_mismatch(text, pattern, at, 0);
        } else {
            lemma_mismatch(text, pattern, at, 1);
        }
    }
    lemma_replaced_once(before, pattern, after, key);
    assert(before + key + after =~= before + key);
}

/// The address that is asked for a position: where neither the access token
/// nor the latitude holds an opening brace, it is head, longitude, comma,
/// latitude, tail and token, one after the other.
pub proof fn lemma_address(key: Seq<char>, latitude: Seq<char>, longitude: Seq<char>)
    requires
        braceless(key),
        braceless(latitude),
    ensures
        replaced(
            replaced(
                replaced(ENDPOINT_TEMPLATE@, "{access_token}"@, key),
                "{lat_dec}"@,
                latitude,
            ),
            "{lon_dec}"@,
            longitude,
        ) == address(key, latitude, longitude),
{
    lemma_template();
    lemma_endpoint(key);
    let lat_name = "{lat_dec}"@;
    let lon_name = "{lon_dec}"@;
    // The latitude.
    let before = address_head() + lon_name + ","@;
    let after = address_tail() + key;
    let text = before + lat_name + after;
    assert(text =~= address_head() + lon_name + ","@ + lat_name + address_tail() + key);
    assert forall|at: int| 0 <= at < before.len() implies !starts_at(text, lat_name, at) by {
        if text[at] != '{' {
            lemma_mismatch(text, lat_name, at, 0);
        } else {
            lemma_mismatch(text, lat_name, at, 2);
        }
    }
    assert forall|at: int| 0 <= at < after.len() implies !starts_at(after, lat_name, at) by {
        lemma_mismatch(after, lat_name, at, 0);
    }
    lemma_replaced_once(before, lat_name, after, latitude);
    // The longitude.
    let rest = ","@ + latitude + address_tail() + key;
    let with_latitude = address_head() + lon_name + rest;
    assert(with_latitude =~= before + latitude + after);
    assert forall|at: int| 0 <= at < address_head().len() implies !starts_at(
        with_latitude,
        lon_name,
        at,
    ) by {
        lemma_mismatch(with_latitude, lon_name, at, 0);
    }
    assert forall|at: int| 0 <= at < rest.len() implies !starts_at(rest, lon_name, at) by {
        lemma_mismatch(rest, lon_name, at, 0);
    }
    lemma_replaced_once(address_head(), lon_name, rest, longitude);
    assert(address_head() + longitude + rest =~= address(key, latitude, longitude));
}

} // verus!

//! Decoding of submitted form pairs into a request: keys are matched
//! case-insensitively with underscores stripped, later pairs win, and
//! unrecognized keys are ignored.

use vstd::prelude::*;
use vstd::string::StringSliceAdditionalSpecFns;
use vstd::utf8::encode_utf8;
use crate::strutil::{bytes_eq, spec_parse_i32};
use crate::types::ConnectData;

verus! {

/// An ASCII byte folded to lower case.
pub open spec fn lower_byte(b: u8) -> u8 {
    if 65 <= b <= 90 {
        (b + 32) as u8
    } else {
        b
    }
}

/// A key's bytes folded to lower case with every underscore removed.
pub open spec fn norm_key(s: Seq<u8>) -> Seq<u8>
    decreases s.len(),
{
    if s.len() == 0 {
        Seq::empty()
    } else {
        let rest = norm_key(s.drop_last());
        if s.last() == 95 {
            rest
        } else {
            rest.push(lower_byte(s.last()))
        }
    }
}

/// Folds a key to lower case and strips underscores.
fn normalize_key(s: &str) -> (r: Vec<u8>)
    ensures
        r@ == norm_key(s.spec_bytes()),
{
    let bytes = s.as_bytes();
    let n = bytes.len();
    let mut out: Vec<u8> = Vec::new();
    let mut i: usize = 0;
    proof {
        assert(bytes@.subrange(0, 0) =~= Seq::<u8>::empty());
    }
    while i < n
        invariant
            i <= n,
            n == bytes@.len(),
            bytes@ == s.spec_bytes(),
            out@ == norm_key(bytes@.subrange(0, i as int)),
        decreases n - i,
    {
        proof {
            assert(bytes@.subrange(0, i + 1).drop_last() =~= bytes@.subrange(0, i as int));
            assert(bytes@.subrange(0, i + 1).last() == bytes@[i as int]);
        }
        let b = bytes[i];
        if b != 95 {
            if b >= 65 && b <= 90 {
                out.push(b + 32);
            } else {
                out.push(b);
            }
        }
        i += 1;
    }
    proof {
        assert(bytes@.subrange(0, n as int) =~= bytes@);
    }
    out
}

/// Whether a normalized key names the given parameter.
fn key_is(norm: &Vec<u8>, name: &str) -> (r: bool)
    ensures
        r == (norm@ == name.spec_bytes()),
{
    bytes_eq(norm.as_slice(), name.as_bytes())
}

/// The twelve recognized parameter names denote pairwise distinct byte
/// strings: their lengths, or one byte where lengths agree, tell them apart.
proof fn lemma_form_keys_distinct()
    ensures
        "granttype".spec_bytes().len() == 9,
        "refreshtoken".spec_bytes().len() == 12,
        "clientid".spec_bytes().len() == 8,
        "clientid".spec_bytes()[0] == 99,
        "password".spec_bytes().len() == 8,
        "password".spec_bytes()[0] == 112,
        "username".spec_bytes().len() == 8,
        "username".spec_bytes()[0] == 117,
        "scope".spec_bytes().len() == 5,
        "deviceidentifier".spec_bytes().len() == 16,
        "devicename".spec_bytes().len() == 10,
        "devicename".spec_bytes()[6] == 110,
        "devicetype".spec_bytes().len() == 10,
        "devicetype".spec_bytes()[6] == 116,
        "twofactorprovider".spec_bytes().len() == 17,
        "twofactorprovider".spec_bytes()[9] == 112,
        "twofactortoken".spec_bytes().len() == 14,
        "twofactorremember".spec_bytes().len() == 17,
        "twofactorremember".spec_bytes()[9] == 114,
{
    broadcast use vstd::string::is_ascii_spec_bytes;

    reveal_strlit("granttype");
    reveal_strlit("refreshtoken");
    reveal_strlit("clientid");
    reveal_strlit("password");
    reveal_strlit("scope");
    reveal_strlit("username");
    reveal_strlit("deviceidentifier");
    reveal_strlit("devicename");
    reveal_strlit("devicetype");
    reveal_strlit("twofactorprovider");
    reveal_strlit("twofactortoken");
    reveal_strlit("twofactorremember");
    assert(vstd::string::is_ascii("granttype"));
    assert(vstd::string::is_ascii("refreshtoken"));
    assert(vstd::string::is_ascii("clientid"));
    assert(vstd::string::is_ascii("password"));
    assert(vstd::string::is_ascii("scope"));
    assert(vstd::string::is_ascii("username"));
    assert(vstd::string::is_ascii("deviceidentifier"));
    assert(vstd::string::is_ascii("devicename"));
    assert(vstd::string::is_ascii("devicetype"));
    assert(vstd::string::is_ascii("twofactorprovider"));
    assert(vstd::string::is_ascii("twofactortoken"));
    assert(vstd::string::is_ascii("twofactorremember"));
}

/// The value of the last pair whose normalized key matches, if any: later
/// occurrences of a parameter overwrite earlier ones.
pub open spec fn last_value_for(items: Seq<(String, String)>, key: Seq<u8>) -> Option<String>
    decreases items.len(),
{
    if items.len() == 0 {
        None
    } else if norm_key(encode_utf8(items.last().0@)) == key {
        Some(items.last().1)
    } else {
        last_value_for(items.drop_last(), key)
    }
}

/// Decodes submitted form pairs into a request.  Keys are matched after
/// case folding and underscore stripping; the numeric two-factor fields
/// take the last parseable occurrence's value, unparseable values clear
/// them; everything else is ignored.
pub fn connect_data_from_form(items: &Vec<(String, String)>) -> (r: ConnectData)
    ensures
        (match last_value_for(items@, "granttype".spec_bytes()) {
            Some(v) => r.grant_type == v,
            None => r.grant_type@ == Seq::<char>::empty(),
        }),
        r.refresh_token == last_value_for(items@, "refreshtoken".spec_bytes()),
        r.client_id == last_value_for(items@, "clientid".spec_bytes()),
        r.password == last_value_for(items@, "password".spec_bytes()),
        r.scope == last_value_for(items@, "scope".spec_bytes()),
        r.username == last_value_for(items@, "username".spec_bytes()),
        r.device_identifier == last_value_for(items@, "deviceidentifier".spec_bytes()),
        r.device_name == last_value_for(items@, "devicename".spec_bytes()),
        r.device_type == last_value_for(items@, "devicetype".spec_bytes()),
        r.two_factor_provider == (match last_value_for(items@, "twofactorprovider".spec_bytes()) {
            Some(v) => spec_parse_i32(encode_utf8(v@)),
            None => None,
        }),
        r.two_factor_token == last_value_for(items@, "twofactortoken".spec_bytes()),
        r.two_factor_remember == (match last_value_for(items@, "twofactorremember".spec_bytes()) {
            Some(v) => spec_parse_i32(encode_utf8(v@)),
            None => None,
        }),
{
    let mut form = ConnectData::empty();
    let n = items.len();
    let mut i: usize = 0;
    proof {
        assert(items@.subrange(0, 0) =~= Seq::<(String, String)>::empty());
    }
    while i < n
        invariant
            i <= n,
            n == items@.len(),
            (match last_value_for(items@.subrange(0, i as int), "granttype".spec_bytes()) {
                Some(v) => form.grant_type == v,
                None => form.grant_type@ == Seq::<char>::empty(),
            }),
            form.refresh_token == last_value_for(
                items@.subrange(0, i as int),
                "refreshtoken".spec_bytes(),
            ),
            form.client_id == last_value_for(
                items@.subrange(0, i as int),
                "clientid".spec_bytes(),
            ),
            form.password == last_value_for(
                items@.subrange(0, i as int),
                "password".spec_bytes(),
            ),
            form.scope == last_value_for(items@.subrange(0, i as int), "scope".spec_bytes()),
            form.username == last_value_for(
                items@.subrange(0, i as int),
                "username".spec_bytes(),
            ),
            form.device_identifier == last_value_for(
                items@.subrange(0, i as int),
                "deviceidentifier".spec_bytes(),
            ),
            form.device_name == last_value_for(
                items@.subrange(0, i as int),
                "devicename".spec_bytes(),
            ),
            form.device_type == last_value_for(
                items@.subrange(0, i as int),
                "devicetype".spec_bytes(),
            ),
            form.two_factor_provider == (match last_value_for(
                items@.subrange(0, i as int),
                "twofactorprovider".spec_bytes(),
            ) {
                Some(v) => spec_parse_i32(encode_utf8(v@)),
                None => None,
            }),
            form.two_factor_token == last_value_for(
                items@.subrange(0, i as int),
                "twofactortoken".spec_bytes(),
            ),
            form.two_factor_remember == (match last_value_for(
                items@.subrange(0, i as int),
                "twofactorremember".spec_bytes(),
            ) {
                Some(v) => spec_parse_i32(encode_utf8(v@)),
                None => None,
            }),
        decreases n - i,
    {
        proof {
            lemma_form_keys_distinct();
            assert(items@.subrange(0, i + 1).drop_last() =~= items@.subrange(0, i as int));
            assert(items@.subrange(0, i + 1).last() == items@[i as int]);
        }
        let key = &items[i].0;
        let value = items[i].1.clone();
        let norm = normalize_key(key.as_str());
        if key_is(&norm, "granttype") {
            form.grant_type = value;
        } else if key_is(&norm, "refreshtoken") {
            form.refresh_token = Some(value);
        } else if key_is(&norm, "clientid") {
            form.client_id = Some(value);
        } else if key_is(&norm, "password") {
            form.password = Some(value);
        } else if key_is(&norm, "scope") {
            form.scope = Some(value);
        } else if key_is(&norm, "username") {
            form.username = Some(value);
        } else if key_is(&norm, "deviceidentifier") {
            form.device_identifier = Some(value);
        } else if key_is(&norm, "devicename") {
            form.device_name = Some(value);
        } else if key_is(&norm, "devicetype") {
            form.device_type = Some(value);
        } else if key_is(&norm, "twofactorprovider") {
            form.two_factor_provider = crate::strutil::parse_i32(value.as_str());
        } else if key_is(&norm, "twofactortoken") {
            form.two_factor_token = Some(value);
        } else if key_is(&norm, "twofactorremember") {
            form.two_factor_remember = crate::strutil::parse_i32(value.as_str());
        }
        i += 1;
    }
    proof {
        assert(items@.subrange(0, n as int) =~= items@);
    }
    form
}

} // verus!

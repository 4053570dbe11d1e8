//! Zone tokens: `<identifier>` or `<identifier>@<label>`.

use crate::error::ClockError;
use crate::tzdb::{find_zone, zone_in_database};
use vstd::prelude::*;
use vstd::string::*;

verus! {

/// The position of the first `@` in `token` at or after `from`, or the length
/// of `token` where there is none.
pub open spec fn separator_from(token: Seq<char>, from: int) -> int
    decreases token.len() - from,
{
    if from < 0 || from >= token.len() {
        token.len() as int
    } else if token[from] == '@' {
        from
    } else {
        separator_from(token, from + 1)
    }
}

/// The position of the first `@` in `token`, or its length where it has none.
pub open spec fn separator_index(token: Seq<char>) -> int {
    separator_from(token, 0)
}

/// The part of a token that names the zone: all of it, or what stands before
/// the first `@`.
pub open spec fn identifier_of(token: Seq<char>) -> Seq<char> {
    token.take(separator_index(token))
}

/// The label a token asks for: what stands after the first `@`, or the whole
/// token where it has no `@`.
pub open spec fn label_of(token: Seq<char>) -> Seq<char> {
    if separator_index(token) < token.len() {
        token.skip(separator_index(token) + 1)
    } else {
        token
    }
}

/// `separator_from` finds an `@`, passes none on its way, and stays in range.
pub proof fn lemma_separator_from(token: Seq<char>, from: int)
    requires
        0 <= from <= token.len(),
    ensures
        from <= separator_from(token, from) <= token.len(),
        separator_from(token, from) < token.len() ==> token[separator_from(token, from)] == '@',
        forall|j: int| from <= j < separator_from(token, from) ==> token[j] != '@',
    decreases token.len() - from,
{
    if from < token.len() && token[from] != '@' {
        lemma_separator_from(token, from + 1);
    }
}

/// A token splits at its first `@` and nowhere else: the identifier holds no
/// `@`; with a separator the token is identifier, `@`, label; without one the
/// identifier and the label are both the whole token.
pub proof fn lemma_token_parts(token: Seq<char>)
    ensures
        !identifier_of(token).contains('@'),
        token.contains('@') ==> token == identifier_of(token) + seq!['@'] + label_of(token),
        !token.contains('@') ==> identifier_of(token) == token && label_of(token) == token,
{
    lemma_separator_from(token, 0);
    let k = separator_index(token);
    let id = identifier_of(token);
    assert forall|j: int| 0 <= j < id.len() implies id[j] != '@' by {
        assert(id[j] == token[j]);
    }
    if token.contains('@') {
        assert(k < token.len());
        assert(token =~= id + seq!['@'] + label_of(token));
    } else {
        if k < token.len() {
            assert(token[k] == '@');
            assert(token.contains('@'));
        }
        assert(id =~= token);
    }
}

/// Splits a token into the zone identifier and the display label.
pub fn split_token(token: &str) -> (parts: (String, String))
    ensures
        parts.0@ == identifier_of(token@),
        parts.1@ == label_of(token@),
{
    let n = token.unicode_len();
    let mut i: usize = 0;
    let mut found = false;
    while i < n && !found
        invariant
            i <= n,
            n == token@.len(),
            separator_index(token@) == separator_from(token@, i as int),
            found ==> i < n && token@[i as int] == '@',
        decreases n - i + (if found { 0int } else { 1int }),
    {
        if token.get_char(i) == '@' {
            found = true;
        } else {
            i = i + 1;
        }
    }
    let identifier = String::from_str(token.substring_char(0, i));
    if found {
        let label = String::from_str(token.substring_char(i + 1, n));
        (identifier, label)
    } else {
        (identifier, String::from_str(token))
    }
}

/// What a zone token asks for.
pub struct ZoneRequest {
    /// The zone's name in the database.
    pub zone: Seq<char>,
    /// The label to print beside its time.
    pub label: Seq<char>,
}

/// What `token` asks for: the zone its identifier names, under its label.
pub open spec fn request_of(token: Seq<char>) -> ZoneRequest {
    ZoneRequest { zone: identifier_of(token), label: label_of(token) }
}

/// A zone of the database together with the label to show for it.
#[derive(Debug)]
pub struct TzWithName {
    name: String,
    tz: String,
}

impl View for TzWithName {
    type V = ZoneRequest;

    closed spec fn view(&self) -> ZoneRequest {
        ZoneRequest { zone: self.tz@, label: self.name@ }
    }
}

impl Clone for TzWithName {
    fn clone(&self) -> (copy: TzWithName)
        ensures
            copy@ == self@,
    {
        proof {
            use_type_invariant(self);
        }
        TzWithName { name: self.name.clone(), tz: self.tz.clone() }
    }
}

impl TzWithName {
    /// Every value names a zone of the database.
    #[verifier::type_invariant]
    closed spec fn names_a_zone(self) -> bool {
        zone_in_database(self.tz@)
    }

    /// Parses a token. The identifier must be a zone of the database; the
    /// label is taken as written and defaults to the identifier.
    pub fn from_str(s: &str) -> (parsed: Result<TzWithName, ClockError>)
        ensures
            match parsed {
                Ok(request) => zone_in_database(identifier_of(s@)) && request@ == request_of(s@),
                Err(error) => {
                    &&& !zone_in_database(identifier_of(s@))
                    &&& error matches ClockError::InvalidTimeZone(token)
                    &&& token@ == s@
                },
            },
    {
        let (identifier, label) = split_token(s);
        match find_zone(identifier.as_str()) {
            Ok(()) => Ok(TzWithName { name: label, tz: identifier }),
            Err(_) => Err(ClockError::InvalidTimeZone(String::from_str(s))),
        }
    }

    /// The label to print beside the zone's time.
    pub fn name(&self) -> (label: &str)
        ensures
            label@ == self@.label,
    {
        self.name.as_str()
    }

    /// Takes the request apart into the zone's name and the label.
    pub fn into_parts(self) -> (parts: (String, String))
        ensures
            parts.0@ == self@.zone,
            parts.1@ == self@.label,
            zone_in_database(parts.0@),
    {
        proof {
            use_type_invariant(&self);
        }
        (self.tz, self.name)
    }

    /// The zone's name in the database.
    pub fn zone(&self) -> (zone: &str)
        ensures
            zone@ == self@.zone,
            zone_in_database(zone@),
    {
        proof {
            use_type_invariant(self);
        }
        self.tz.as_str()
    }
}

} // verus!

//! Extra parameters: the `key=value|key=value|` text that configures a
//! spawned entity, and the mapping it decodes to.

use vstd::prelude::*;
use vstd::string::*;

use crate::gameplay::number::{parse_permille, parse_u128, permille_text, unsigned_text};
use crate::gameplay::table::NameTable;

verus! {

/// Separates one parameter from the next.
pub const PAIR_SEPARATOR: char = '|';

/// Separates a key from its value.
pub const VALUE_SEPARATOR: char = '=';

/// Index of the first `c` in `s`, or the length of `s` if there is none.
pub open spec fn find_first(s: Seq<char>, c: char) -> nat
    decreases s.len(),
{
    if s.len() == 0 {
        0
    } else if s[0] == c {
        0
    } else {
        1 + find_first(s.skip(1), c)
    }
}

/// How often `c` occurs in `s`.
pub open spec fn occurrences(s: Seq<char>, c: char) -> nat
    decreases s.len(),
{
    if s.len() == 0 {
        0
    } else {
        occurrences(s.drop_last(), c) + if s.last() == c {
            1nat
        } else {
            0nat
        }
    }
}

/// The text up to the first pair separator.
pub open spec fn first_token(s: Seq<char>) -> Seq<char> {
    s.subrange(0, find_first(s, PAIR_SEPARATOR) as int)
}

/// The text behind the first pair separator; empty if there is none.
pub open spec fn after_first_token(s: Seq<char>) -> Seq<char> {
    let end = find_first(s, PAIR_SEPARATOR);
    if end < s.len() {
        s.subrange(end as int + 1, s.len() as int)
    } else {
        Seq::empty()
    }
}

/// A token is well formed if it splits into exactly a key and a value.
pub open spec fn well_formed_token(token: Seq<char>) -> bool {
    occurrences(token, VALUE_SEPARATOR) == 1
}

pub open spec fn token_key(token: Seq<char>) -> Seq<char> {
    token.subrange(0, find_first(token, VALUE_SEPARATOR) as int)
}

pub open spec fn token_value(token: Seq<char>) -> Seq<char> {
    token.subrange(find_first(token, VALUE_SEPARATOR) as int + 1, token.len() as int)
}

/// The first occurrence is where a scan from the left stops.
pub proof fn lemma_find_first_is(s: Seq<char>, c: char, k: int)
    requires
        0 <= k <= s.len(),
        forall|j: int| 0 <= j < k ==> s[j] != c,
        k < s.len() ==> s[k] == c,
    ensures
        find_first(s, c) == k,
    decreases s.len(),
{
    if s.len() != 0 && k > 0 {
        assert(s[0] != c);
        assert forall|j: int| 0 <= j < k - 1 implies s.skip(1)[j] != c by {
            assert(s.skip(1)[j] == s[j + 1]);
        }
        if k - 1 < s.skip(1).len() {
            assert(s.skip(1)[k - 1] == s[k]);
        }
        lemma_find_first_is(s.skip(1), c, k - 1);
    }
}

/// The mapping after decoding `s` on top of `acc`, and the first malformed
/// token if there is one. Decoding stops at a malformed token; the pairs
/// before it are kept. A later pair replaces an earlier one with the same
/// key, and empty tokens are passed over.
pub open spec fn decode(s: Seq<char>, acc: Map<Seq<char>, Seq<char>>) -> (
    Map<Seq<char>, Seq<char>>,
    Option<Seq<char>>,
)
    decreases s.len(),
{
    if s.len() == 0 {
        (acc, None)
    } else {
        let token = first_token(s);
        let rest = after_first_token(s);
        if token.len() == 0 {
            decode(rest, acc)
        } else if !well_formed_token(token) {
            (acc, Some(token))
        } else {
            decode(rest, acc.insert(token_key(token), token_value(token)))
        }
    }
}

/// The value of `key` as text; empty if the key is not set.
pub open spec fn text_value(extra: Map<Seq<char>, Seq<char>>, key: Seq<char>) -> Seq<char> {
    if extra.contains_key(key) {
        extra[key]
    } else {
        ""@
    }
}

/// The value of `key` read as a decimal number, in thousandths; `fallback`
/// if the key is not set or its value is no number that fits.
pub open spec fn permille_value(
    extra: Map<Seq<char>, Seq<char>>,
    key: Seq<char>,
    fallback: i32,
) -> i32 {
    if extra.contains_key(key) {
        match permille_text(extra[key]) {
            Some(n) => if -i32::MAX <= n <= i32::MAX {
                n as i32
            } else {
                fallback
            },
            None => fallback,
        }
    } else {
        fallback
    }
}

/// The value of `key` read as an unsigned number; `fallback` if the key is
/// not set or its value is no number that fits.
pub open spec fn number_value(
    extra: Map<Seq<char>, Seq<char>>,
    key: Seq<char>,
    fallback: u128,
) -> u128 {
    if extra.contains_key(key) {
        match unsigned_text(extra[key]) {
            Some(n) => if n <= u128::MAX {
                n as u128
            } else {
                fallback
            },
            None => fallback,
        }
    } else {
        fallback
    }
}

/// The parameter text that asks an effect for the animation `animation`,
/// mirrored or not.
pub open spec fn effect_text(animation: Seq<char>, flipped: bool) -> Seq<char> {
    "idle_animation="@ + animation + if flipped {
        "|flip_x=1|"@
    } else {
        "|flip_x=0|"@
    }
}

/// Writes the parameters of an effect.
pub fn effect_params(animation: &str, flipped: bool) -> (text: String)
    ensures
        text@ == effect_text(animation@, flipped),
{
    let mut text = String::from_str("idle_animation=");
    text.append(animation);
    if flipped {
        text.append("|flip_x=1|");
    } else {
        text.append("|flip_x=0|");
    }
    text
}

/// Writes the parameters of an effect that is drawn at the scale `scale`,
/// given as a decimal number.
pub fn scaled_effect_params(animation: &str, flipped: bool, scale: &str) -> (text: String)
    ensures
        text@ == effect_text(animation@, flipped) + "scale="@ + scale@ + "|"@,
{
    let mut text = effect_params(animation, flipped);
    text.append("scale=");
    text.append(scale);
    text.append("|");
    text
}

/// Extra parameters of one entity: a mapping from keys to values, both
/// text.
pub struct ExtraParams {
    table: NameTable<String>,
}

/// Why a parameter text was rejected.
#[derive(Debug)]
pub struct ExtraError {
    /// The token that is not a single key and a single value.
    pub token: String,
    /// The whole text the token stands in.
    pub raw: String,
}

impl View for ExtraParams {
    type V = Map<Seq<char>, Seq<char>>;

    closed spec fn view(&self) -> Map<Seq<char>, Seq<char>> {
        Map::new(|k: Seq<char>| self.table@.contains_key(k), |k: Seq<char>| self.table@[k]@)
    }
}

impl ExtraParams {
    pub fn new() -> (params: ExtraParams)
        ensures
            params@ == Map::<Seq<char>, Seq<char>>::empty(),
    {
        let params = ExtraParams { table: NameTable::new() };
        assert(params@ =~= Map::<Seq<char>, Seq<char>>::empty());
        params
    }

    pub fn clear(&mut self)
        ensures
            final(self)@ == Map::<Seq<char>, Seq<char>>::empty(),
    {
        self.table.clear();
        assert(self@ =~= Map::<Seq<char>, Seq<char>>::empty());
    }

    /// Sets `key` to `value`, replacing what the key had before.
    pub fn insert(&mut self, key: String, value: String)
        ensures
            final(self)@ == old(self)@.insert(key@, value@),
    {
        self.table.insert(key, value);
        assert(self@ =~= old(self)@.insert(key@, value@));
    }

    /// The value of `key`, if the key is set.
    pub fn get(&self, key: &str) -> (value: Option<&String>)
        ensures
            match value {
                Some(v) => self@.contains_key(key@) && self@[key@] == v@,
                None => !self@.contains_key(key@),
            },
    {
        self.table.get(key)
    }

    pub fn contains_key(&self, key: &str) -> (found: bool)
        ensures
            found == self@.contains_key(key@),
    {
        self.table.contains_key(key)
    }

    /// The value of `key` as text; empty if the key is not set.
    pub fn text_or_empty(&self, key: &str) -> (text: String)
        ensures
            text@ == text_value(self@, key@),
    {
        match self.get(key) {
            Some(v) => v.clone(),
            None => String::from_str(""),
        }
    }

    /// The value of `key` as a decimal number in thousandths; `fallback` if
    /// the key is not set or its value is no such number.
    pub fn permille_or(&self, key: &str, fallback: i32) -> (value: i32)
        ensures
            value == permille_value(self@, key@, fallback),
    {
        match self.get(key) {
            Some(v) => match parse_permille(v.as_str()) {
                Some(n) => n,
                None => fallback,
            },
            None => fallback,
        }
    }

    /// The value of `key` as an unsigned number; `fallback` if the key is
    /// not set or its value is no such number.
    pub fn number_or(&self, key: &str, fallback: u128) -> (value: u128)
        ensures
            value == number_value(self@, key@, fallback),
    {
        match self.get(key) {
            Some(v) => match parse_u128(v.as_str()) {
                Some(n) => n,
                None => fallback,
            },
            None => fallback,
        }
    }

    /// Decodes `raw` and adds its pairs to the mapping. A token that is
    /// not empty and does not consist of one key and one value ends the
    /// decoding with an error; the pairs in front of it have been added.
    pub fn parsing_extra(&mut self, raw: &str) -> (outcome: Result<(), ExtraError>)
        ensures
            final(self)@ == decode(raw@, old(self)@).0,
            match outcome {
                Ok(_) => decode(raw@, old(self)@).1 is None,
                Err(e) => decode(raw@, old(self)@).1 == Some(e.token@) && e.raw@ == raw@,
            },
    {
        let n: usize = raw.unicode_len();
        let mut start: usize = 0;
        assert(raw@.subrange(0, n as int) == raw@);
        while start < n
            invariant
                start <= n,
                n == raw@.len(),
                decode(raw@.subrange(start as int, n as int), self@) == decode(raw@, old(self)@),
            decreases n - start,
        {
            let ghost rest = raw@.subrange(start as int, n as int);
            let mut end: usize = start;
            let mut separators: usize = 0;
            let mut first_separator: usize = start;
            while end < n && raw.get_char(end) != PAIR_SEPARATOR
                invariant
                    start <= end <= n,
                    n == raw@.len(),
                    forall|j: int| start <= j < end ==> raw@[j] != PAIR_SEPARATOR,
                    separators == occurrences(
                        raw@.subrange(start as int, end as int),
                        VALUE_SEPARATOR,
                    ),
                    separators <= end - start,
                    separators == 0 ==> forall|j: int|
                        start <= j < end ==> raw@[j] != VALUE_SEPARATOR,
                    separators > 0 ==> {
                        &&& start <= first_separator < end
                        &&& raw@[first_separator as int] == VALUE_SEPARATOR
                        &&& forall|j: int|
                            start <= j < first_separator ==> raw@[j] != VALUE_SEPARATOR
                    },
                decreases n - end,
            {
                let c = raw.get_char(end);
                assert(raw@.subrange(start as int, end + 1).drop_last() == raw@.subrange(
                    start as int,
                    end as int,
                ));
                if c == VALUE_SEPARATOR {
                    if separators == 0 {
                        first_separator = end;
                    }
                    separators += 1;
                }
                end += 1;
            }
            let next: usize = if end < n {
                end + 1
            } else {
                n
            };
            proof {
                lemma_find_first_is(rest, PAIR_SEPARATOR, end - start);
                assert(first_token(rest) == raw@.subrange(start as int, end as int));
                assert(after_first_token(rest) == raw@.subrange(next as int, n as int));
            }
            if end > start {
                let token = raw.substring_char(start, end);
                if separators != 1 {
                    return Err(ExtraError { token: String::from_str(token), raw: String::from_str(raw) });
                }
                let key = raw.substring_char(start, first_separator);
                let value = raw.substring_char(first_separator + 1, end);
                proof {
                    lemma_find_first_is(token@, VALUE_SEPARATOR, first_separator - start);
                    assert(token_key(token@) == key@);
                    assert(token_value(token@) == value@);
                }
                self.insert(String::from_str(key), String::from_str(value));
            }
            start = next;
        }
        Ok(())
    }
}

} // verus!

//! Text matching: prefixes, suffixes, substrings and regular expressions.

use vstd::prelude::*;

verus! {

/// Whether `needle` occurs somewhere in `text`.
pub open spec fn occurs_in(needle: Seq<char>, text: Seq<char>) -> bool {
    exists|i: int|
        0 <= i <= text.len() - needle.len() && #[trigger] text.subrange(i, i + needle.len())
            == needle
}

/// Whether two texts hold the same characters.
pub(crate) fn equal(a: &str, b: &str) -> (r: bool)
    ensures
        r == (a@ == b@),
{
    let left = a.as_bytes();
    let right = b.as_bytes();
    if left.len() != right.len() {
        return false;
    }
    let mut i: usize = 0;
    while i < left.len()
        invariant
            left@ == vstd::utf8::encode_utf8(a@),
            right@ == vstd::utf8::encode_utf8(b@),
            left@.len() == right@.len(),
            i <= left@.len(),
            forall|k: int| 0 <= k < i ==> left@[k] == right@[k],
        decreases left@.len() - i,
    {
        if left[i] != right[i] {
            return false;
        }
        i = i + 1;
    }
    assert(left@ =~= right@);
    proof {
        vstd::utf8::encode_utf8_decode_utf8(a@);
        vstd::utf8::encode_utf8_decode_utf8(b@);
    }
    true
}

/// Whether the characters of `prefix` are the first characters of `text`.
pub(crate) fn starts_with(text: &str, prefix: &str) -> (r: bool)
    ensures
        r == prefix@.is_prefix_of(text@),
{
    let len: usize = prefix.unicode_len();
    len <= text.unicode_len() && equal(text.substring_char(0, len), prefix)
}

/// Whether the characters of `suffix` are the last characters of `text`.
pub(crate) fn ends_with(text: &str, suffix: &str) -> (r: bool)
    ensures
        r == suffix@.is_suffix_of(text@),
{
    let len: usize = suffix.unicode_len();
    let all: usize = text.unicode_len();
    len <= all && equal(text.substring_char(all - len, all), suffix)
}

/// Whether the characters of `needle` occur, next to each other and in order, in `text`.
pub(crate) fn contains(text: &str, needle: &str) -> (r: bool)
    ensures
        r == occurs_in(needle@, text@),
{
    let len: usize = needle.unicode_len();
    let all: usize = text.unicode_len();
    if len > all {
        return false;
    }
    let last: usize = all - len;
    let mut i: usize = 0;
    while i < last
        invariant
            len == needle@.len(),
            all == text@.len(),
            last == all - len,
            i <= last,
            forall|k: int|
                0 <= k < i ==> #[trigger] text@.subrange(k, k + needle@.len()) != needle@,
        decreases last - i,
    {
        if equal(text.substring_char(i, i + len), needle) {
            return true;
        }
        i = i + 1;
    }
    equal(text.substring_char(last, last + len), needle)
}

/// A compiled regular expression of the `regex` crate.
#[verifier::external_type_specification]
#[verifier::external_body]
pub struct ExRegex(regex::Regex);

/// The texts that a compiled regular expression matches, somewhere in the text.
pub uninterp spec fn matched_texts(re: regex::Regex) -> Set<Seq<char>>;

/// The texts that the regular expression written as `pattern` matches.
pub uninterp spec fn texts_of_pattern(pattern: Seq<char>) -> Set<Seq<char>>;

/// `regex::Regex::new`: what a compiled expression matches is settled by its pattern.
///
/// On which patterns compilation fails is not stated: besides invalid patterns, those
/// whose compiled program exceeds a size limit in bytes are refused too, and that size
/// depends on the machine. The error is the text that `regex::Error` displays.
#[verifier::external_body]
pub(crate) fn compile(pattern: &str) -> (r: Result<regex::Regex, String>)
    ensures
        r matches Ok(re) ==> matched_texts(re) == texts_of_pattern(pattern@),
{
    regex::Regex::new(pattern).map_err(|error| error.to_string())
}

/// `regex::Regex::is_match`: true exactly when the text is one that the compiled
/// expression matches.
#[verifier::external_body]
pub(crate) fn is_match(re: &regex::Regex, text: &str) -> (r: bool)
    ensures
        r == matched_texts(*re).contains(text@),
{
    re.is_match(text)
}

/// Compiled regular expressions, found again by the text of the identifier that they
/// belong to. No identifier occurs twice.
pub struct RegexIdentifiers {
    ids: Vec<String>,
    compiled: Vec<regex::Regex>,
}

/// The position of `id` among `ids`, counted from `from`.
spec fn position_from(ids: Seq<String>, id: Seq<char>, from: int) -> Option<int>
    decreases ids.len() - from,
{
    if from < 0 || from >= ids.len() {
        None
    } else if ids[from]@ == id {
        Some(from)
    } else {
        position_from(ids, id, from + 1)
    }
}

proof fn position_from_is_a_position(ids: Seq<String>, id: Seq<char>, from: int)
    requires
        0 <= from,
    ensures
        position_from(ids, id, from) matches Some(i) ==> from <= i < ids.len() && ids[i]@ == id,
        position_from(ids, id, from) is None ==> (forall|i: int|
            from <= i < ids.len() ==> (#[trigger] ids[i])@ != id),
    decreases ids.len() - from,
{
    if from < ids.len() && ids[from]@ != id {
        position_from_is_a_position(ids, id, from + 1);
    }
}

impl View for RegexIdentifiers {
    type V = Map<Seq<char>, Set<Seq<char>>>;

    closed spec fn view(&self) -> Map<Seq<char>, Set<Seq<char>>> {
        Map::new(
            |id: Seq<char>| position_from(self.ids@, id, 0) is Some,
            |id: Seq<char>| matched_texts(self.compiled@[position_from(self.ids@, id, 0)->0]),
        )
    }
}

impl RegexIdentifiers {
    pub closed spec fn wf(&self) -> bool {
        &&& self.ids@.len() == self.compiled@.len()
        &&& forall|i: int, j: int|
            0 <= i < j < self.ids@.len() ==> (#[trigger] self.ids@[i])@ != (
            #[trigger] self.ids@[j])@
    }

    pub fn new() -> (r: Self)
        ensures
            r.wf(),
            r@ == Map::<Seq<char>, Set<Seq<char>>>::empty(),
    {
        let r = RegexIdentifiers { ids: Vec::new(), compiled: Vec::new() };
        assert(r@ =~= Map::<Seq<char>, Set<Seq<char>>>::empty());
        r
    }

    /// Where an identifier stands, if it is there.
    fn position(&self, id: &str) -> (r: Option<usize>)
        ensures
            match r {
                Some(i) => position_from(self.ids@, id@, 0) == Some(i as int),
                None => position_from(self.ids@, id@, 0) is None,
            },
    {
        let mut i: usize = 0;
        while i < self.ids.len()
            invariant
                i <= self.ids@.len(),
                position_from(self.ids@, id@, 0) == position_from(self.ids@, id@, i as int),
            decreases self.ids@.len() - i,
        {
            if equal(self.ids[i].as_str(), id) {
                return Some(i);
            }
            i = i + 1;
        }
        None
    }

    /// The compiled expression of an identifier, if it has one.
    pub fn get(&self, id: &str) -> (r: Option<&regex::Regex>)
        requires
            self.wf(),
        ensures
            r is Some == self@.dom().contains(id@),
            r matches Some(re) ==> matched_texts(*re) == self@[id@],
    {
        match self.position(id) {
            Some(i) => {
                proof {
                    position_from_is_a_position(self.ids@, id@, 0);
                }
                Some(&self.compiled[i])
            },
            None => None,
        }
    }

    /// Compile `pattern` and keep it under `id`, in the place of an earlier expression
    /// of that identifier. A pattern that does not compile changes nothing.
    pub fn insert(&mut self, id: String, pattern: &str) -> (r: Result<(), String>)
        requires
            old(self).wf(),
        ensures
            final(self).wf(),
            r is Ok ==> final(self)@ == old(self)@.insert(id@, texts_of_pattern(pattern@)),
            r is Err ==> *final(self) == *old(self),
    {
        self.keep(id, compile(pattern))
    }

    /// Keep an expression under `id`, in the place of an earlier one of that identifier,
    /// where it could be compiled.
    pub fn keep(&mut self, id: String, compiled: Result<regex::Regex, String>) -> (r: Result<
        (),
        String,
    >)
        requires
            old(self).wf(),
        ensures
            final(self).wf(),
            match compiled {
                Ok(re) => r is Ok && final(self)@ == old(self)@.insert(id@, matched_texts(re)),
                Err(error) => r == Err::<(), String>(error) && *final(self) == *old(self),
            },
    {
        let re = match compiled {
            Err(error) => {
                return Err(error);
            },
            Ok(re) => re,
        };
        let ghost before = *self;
        proof {
            assert forall|other: Seq<char>|
                position_from(before.ids@, other, 0) is Some implies {
                let at = #[trigger] position_from(before.ids@, other, 0)->0;
                0 <= at < before.ids@.len() && before.ids@[at]@ == other
            } by {
                position_from_is_a_position(before.ids@, other, 0);
            }
        }
        match self.position(id.as_str()) {
            Some(i) => {
                self.compiled.set(i, re);
            },
            None => {
                self.ids.push(id);
                self.compiled.push(re);
                proof {
                    position_from_is_a_position(before.ids@, id@, 0);
                    assert forall|other: Seq<char>| true implies #[trigger] position_from(
                        self.ids@,
                        other,
                        0,
                    ) == (if other == id@ {
                        Some(before.ids@.len() as int)
                    } else {
                        position_from(before.ids@, other, 0)
                    }) by {
                        appended_position(before.ids@, id, other, 0);
                    }
                }
            },
        }
        assert(self@ =~= before@.insert(id@, matched_texts(re)));
        Ok(())
    }
}

proof fn appended_position(ids: Seq<String>, added: String, id: Seq<char>, from: int)
    requires
        0 <= from <= ids.len(),
    ensures
        position_from(ids.push(added), id, from) == (match position_from(ids, id, from) {
            Some(i) => Some(i),
            None => if added@ == id {
                Some(ids.len() as int)
            } else {
                None
            },
        }),
    decreases ids.len() - from,
{
    if from < ids.len() {
        assert(ids.push(added)[from] == ids[from]);
        if ids[from]@ != id {
            appended_position(ids, added, id, from + 1);
        }
    } else {
        reveal_with_fuel(position_from, 2);
        assert(ids.push(added)[from] == added);
    }
}

} // verus!

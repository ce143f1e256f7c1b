//! The plugin options: a quoted, comma-separated list of `key=value`
//! entries whose values are quoted again.
use crate::model::GenError;
use crate::text::same_text;
use vstd::prelude::*;
use vstd::utf8::{decode_utf8, valid_utf8};

verus! {

#[verifier::external_type_specification]
#[verifier::external_body]
pub struct ExUnquoteError(enquote::Error);

/// What `enquote::unquote` returns for a string: the text without its
/// surrounding quotes and with its escapes resolved, or nothing when the
/// quoting is malformed.
pub uninterp spec fn unquote_of(s: Seq<char>) -> Option<Seq<char>>;

/// Relies on `enquote::unquote`: the result depends on the characters alone,
/// and a string of fewer than two characters is refused.
#[verifier::external_body]
fn unquote(s: &str) -> (r: Result<String, enquote::Error>)
    ensures
        r is Ok <==> unquote_of(s@) is Some,
        r matches Ok(v) ==> unquote_of(s@) == Some(v@),
        s@.len() < 2 ==> r is Err,
{
    enquote::unquote(s)
}

/// Relies on `String::from_utf8`: it accepts exactly the valid UTF-8 byte
/// sequences and keeps the characters they encode.
#[verifier::external_body]
fn text_from_utf8(b: &Vec<u8>) -> (r: Option<String>)
    ensures
        r is Some <==> valid_utf8(b@),
        r matches Some(s) ==> s@ == decode_utf8(b@),
{
    String::from_utf8(b.clone()).ok()
}

/// The pieces of `s` between occurrences of `sep`, in order; an empty `s`
/// is one empty piece.
pub open spec fn split_on(s: Seq<char>, sep: char) -> Seq<Seq<char>>
    decreases s.len(),
{
    if s.len() == 0 {
        seq![Seq::empty()]
    } else {
        let p = split_on(s.drop_last(), sep);
        if s.last() == sep {
            p.push(Seq::empty())
        } else {
            p.update(p.len() - 1, p.last().push(s.last()))
        }
    }
}

/// `j` is the position of the first `c` in `t`.
pub open spec fn is_first_index(t: Seq<char>, c: char, j: int) -> bool {
    0 <= j < t.len() && t[j] == c && forall|k: int| 0 <= k < j ==> t[k] != c
}

/// One entry: the key before the first `=`, and the value after it with its
/// quotes removed.
pub open spec fn parse_entry(t: Seq<char>) -> Result<(Seq<char>, Seq<char>), GenError> {
    if exists|j: int| is_first_index(t, '=', j) {
        let j = choose|j: int| is_first_index(t, '=', j);
        match unquote_of(t.subrange(j + 1, t.len() as int)) {
            Some(v) => Ok((t.take(j), v)),
            None => Err(GenError::OptionsQuoting),
        }
    } else {
        Err(GenError::OptionsMissingSeparator)
    }
}

/// All entries in order, or the problem with the first one that has one.
pub open spec fn parse_entries(toks: Seq<Seq<char>>) -> Result<
    Seq<(Seq<char>, Seq<char>)>,
    GenError,
>
    decreases toks.len(),
{
    if toks.len() == 0 {
        Ok(Seq::empty())
    } else {
        match parse_entries(toks.drop_last()) {
            Err(e) => Err(e),
            Ok(es) => match parse_entry(toks.last()) {
                Err(e) => Err(e),
                Ok(p) => Ok(es.push(p)),
            },
        }
    }
}

/// The mapping the entries stand for; a later entry overrides an earlier one
/// with the same key.
pub open spec fn entries_map(es: Seq<(Seq<char>, Seq<char>)>) -> Map<Seq<char>, Seq<char>>
    decreases es.len(),
{
    if es.len() == 0 {
        Map::empty()
    } else {
        entries_map(es.drop_last()).insert(es.last().0, es.last().1)
    }
}

/// The options that the encoded blob `b` stands for. An empty blob is an
/// empty mapping.
pub open spec fn options_of(b: Seq<u8>) -> Result<Map<Seq<char>, Seq<char>>, GenError> {
    if b.len() == 0 {
        Ok(Map::empty())
    } else if !valid_utf8(b) {
        Err(GenError::OptionsNotUtf8)
    } else {
        match unquote_of(decode_utf8(b)) {
            None => Err(GenError::OptionsQuoting),
            Some(u) => match parse_entries(split_on(u, ',')) {
                Err(e) => Err(e),
                Ok(es) => Ok(entries_map(es)),
            },
        }
    }
}

/// A key that no entry has is not in the mapping.
proof fn lemma_map_absent(es: Seq<(Seq<char>, Seq<char>)>, k: Seq<char>)
    requires
        forall|i: int| 0 <= i < es.len() ==> (#[trigger] es[i]).0 != k,
    ensures
        !entries_map(es).contains_key(k),
    decreases es.len(),
{
    if es.len() > 0 {
        lemma_map_absent(es.drop_last(), k);
    }
}

/// The mapping holds the value of the last entry with a key.
proof fn lemma_map_last(es: Seq<(Seq<char>, Seq<char>)>, k: Seq<char>, j: int)
    requires
        0 <= j < es.len(),
        es[j].0 == k,
        forall|i: int| j < i < es.len() ==> (#[trigger] es[i]).0 != k,
    ensures
        entries_map(es).contains_key(k),
        entries_map(es)[k] == es[j].1,
    decreases es.len(),
{
    if j < es.len() - 1 {
        lemma_map_last(es.drop_last(), k, j);
    }
}

/// Once a prefix of the entries fails, all of them fail the same way.
proof fn lemma_entries_err_persists(toks: Seq<Seq<char>>, k: int)
    requires
        0 <= k <= toks.len(),
        parse_entries(toks.take(k)) is Err,
    ensures
        parse_entries(toks) == parse_entries(toks.take(k)),
    decreases toks.len(),
{
    if k == toks.len() {
        assert(toks.take(k) =~= toks);
    } else {
        assert(toks.drop_last().take(k) =~= toks.take(k));
        lemma_entries_err_persists(toks.drop_last(), k);
    }
}

/// The views of a list of strings.
pub open spec fn texts(v: Seq<String>) -> Seq<Seq<char>> {
    v.map_values(|t: String| t@)
}

/// The views of a list of key/value pairs.
pub open spec fn pair_texts(v: Seq<(String, String)>) -> Seq<(Seq<char>, Seq<char>)> {
    v.map_values(|p: (String, String)| (p.0@, p.1@))
}

/// The parsed plugin options, as a mapping from key to value.
pub struct PluginOptions {
    pub entries: Vec<(String, String)>,
}

impl View for PluginOptions {
    type V = Map<Seq<char>, Seq<char>>;

    open spec fn view(&self) -> Map<Seq<char>, Seq<char>> {
        entries_map(pair_texts(self.entries@))
    }
}

impl PluginOptions {
    /// No options at all.
    pub fn new() -> (r: PluginOptions)
        ensures
            r@ == Map::<Seq<char>, Seq<char>>::empty(),
    {
        PluginOptions { entries: Vec::new() }
    }

    /// The value given for `key`, if any.
    pub fn get(&self, key: &str) -> (r: Option<String>)
        ensures
            r is Some <==> self@.contains_key(key@),
            r matches Some(v) ==> self@[key@] == v@,
    {
        let ghost es = pair_texts(self.entries@);
        let mut i: usize = self.entries.len();
        while i > 0
            invariant
                i <= self.entries@.len(),
                es == pair_texts(self.entries@),
                forall|j: int| i <= j < es.len() ==> (#[trigger] es[j]).0 != key@,
            decreases i,
        {
            let entry = &self.entries[i - 1];
            if same_text(entry.0.as_str(), key) {
                proof {
                    lemma_map_last(es, key@, i - 1);
                }
                return Some(entry.1.clone());
            }
            i = i - 1;
        }
        proof {
            lemma_map_absent(es, key@);
        }
        None
    }

    /// Whether no option was given.
    pub fn is_empty(&self) -> (r: bool)
        ensures
            r == (self@ == Map::<Seq<char>, Seq<char>>::empty()),
    {
        let n = self.entries.len();
        if n == 0 {
            proof {
                assert(pair_texts(self.entries@).len() == 0);
            }
            true
        } else {
            proof {
                let es = pair_texts(self.entries@);
                assert(self@.contains_key(es.last().0));
            }
            false
        }
    }
}

/// Splits `s` at every `sep`.
pub fn split_text(s: &str, sep: char) -> (r: Vec<String>)
    ensures
        texts(r@) == split_on(s@, sep),
{
    let n = s.unicode_len();
    let mut toks: Vec<String> = Vec::new();
    let mut start: usize = 0;
    let mut i: usize = 0;
    proof {
        assert(s@.take(0) =~= Seq::<char>::empty());
        assert(texts(toks@).push(s@.subrange(0, 0)) =~= seq![Seq::<char>::empty()]);
    }
    while i < n
        invariant
            n == s@.len(),
            start <= i <= n,
            split_on(s@.take(i as int), sep) == texts(toks@).push(s@.subrange(start as int, i as int)),
        decreases n - i,
    {
        let c = s.get_char(i);
        proof {
            assert(s@.take(i + 1).drop_last() =~= s@.take(i as int));
        }
        if c == sep {
            let t = String::from_str(s.substring_char(start, i));
            let ghost before = toks@;
            toks.push(t);
            proof {
                assert(texts(toks@) =~= texts(before).push(t@));
            }
            start = i + 1;
            proof {
                assert(s@.subrange(start as int, i + 1) =~= Seq::<char>::empty());
            }
        } else {
            proof {
                assert(s@.subrange(start as int, i + 1) =~= s@.subrange(start as int, i as int).push(c));
                assert(texts(toks@).push(s@.subrange(start as int, i as int)).update(
                    texts(toks@).len() as int,
                    s@.subrange(start as int, i + 1),
                ) =~= texts(toks@).push(s@.subrange(start as int, i + 1)));
            }
        }
        i = i + 1;
    }
    let t = String::from_str(s.substring_char(start, n));
    let ghost before = toks@;
    toks.push(t);
    proof {
        assert(s@.take(n as int) =~= s@);
        assert(texts(toks@) =~= texts(before).push(t@));
    }
    toks
}

/// Reads one `key=value` entry, splitting at the first `=` and removing the
/// quotes around the value.
pub fn parse_entry_text(t: &str) -> (r: Result<(String, String), GenError>)
    ensures
        match r {
            Ok(kv) => parse_entry(t@) == Ok::<(Seq<char>, Seq<char>), GenError>((kv.0@, kv.1@)),
            Err(e) => parse_entry(t@) == Err::<(Seq<char>, Seq<char>), GenError>(e),
        },
{
    let n = t.unicode_len();
    let mut j: usize = 0;
    while j < n
        invariant
            n == t@.len(),
            j <= n,
            forall|k: int| 0 <= k < j ==> t@[k] != '=',
        decreases n - j,
    {
        if t.get_char(j) == '=' {
            assert(is_first_index(t@, '=', j as int));
            assert(forall|j2: int| is_first_index(t@, '=', j2) ==> j2 == j);
            let key = String::from_str(t.substring_char(0, j));
            let raw = t.substring_char(j + 1, n);
            assert(key@ =~= t@.take(j as int));
            return match unquote(raw) {
                Ok(v) => Ok((key, v)),
                Err(_) => Err(GenError::OptionsQuoting),
            };
        }
        j = j + 1;
    }
    assert(!exists|j2: int| is_first_index(t@, '=', j2));
    Err(GenError::OptionsMissingSeparator)
}

/// Parses the encoded plugin options. An empty blob gives no options.
pub fn parse_plugin_options(options: &Vec<u8>) -> (r: Result<PluginOptions, GenError>)
    ensures
        match r {
            Ok(o) => options_of(options@) == Ok::<Map<Seq<char>, Seq<char>>, GenError>(o@),
            Err(e) => options_of(options@) == Err::<Map<Seq<char>, Seq<char>>, GenError>(e),
        },
{
    if options.len() == 0 {
        return Ok(PluginOptions::new());
    }
    let text = match text_from_utf8(options) {
        Some(t) => t,
        None => {
            return Err(GenError::OptionsNotUtf8);
        },
    };
    let unquoted = match unquote(text.as_str()) {
        Ok(u) => u,
        Err(_) => {
            return Err(GenError::OptionsQuoting);
        },
    };
    let toks = split_text(unquoted.as_str(), ',');
    let ghost tv = texts(toks@);
    let mut entries: Vec<(String, String)> = Vec::new();
    let mut i: usize = 0;
    proof {
        assert(tv.take(0) =~= Seq::<Seq<char>>::empty());
        assert(pair_texts(entries@) =~= Seq::<(Seq<char>, Seq<char>)>::empty());
    }
    while i < toks.len()
        invariant
            options@.len() != 0,
            valid_utf8(options@),
            unquote_of(decode_utf8(options@)) == Some(unquoted@),
            i <= toks@.len(),
            tv == texts(toks@),
            tv == split_on(unquoted@, ','),
            parse_entries(tv.take(i as int)) == Ok::<Seq<(Seq<char>, Seq<char>)>, GenError>(
                pair_texts(entries@),
            ),
        decreases toks@.len() - i,
    {
        proof {
            assert(tv.take(i + 1).drop_last() =~= tv.take(i as int));
            assert(tv.take(i + 1).last() == toks@[i as int]@);
        }
        match parse_entry_text(toks[i].as_str()) {
            Ok(kv) => {
                let ghost before = entries@;
                entries.push(kv);
                proof {
                    assert(pair_texts(entries@) =~= pair_texts(before).push((kv.0@, kv.1@)));
                }
            },
            Err(e) => {
                proof {
                    lemma_entries_err_persists(tv, i + 1);
                }
                return Err(e);
            },
        }
        i = i + 1;
    }
    proof {
        assert(tv.take(tv.len() as int) =~= tv);
    }
    Ok(PluginOptions { entries })
}

} // verus!

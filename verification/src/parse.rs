//! Parsers for the two tiny controller-file formats: a flat space-separated
//! list of integers, and one `key value` pair per line.

use vstd::prelude::*;
use crate::kvmap::{kv_fold, KvMap};
use crate::strutil::{parse_u64, parse_u64_spec, spec_split, split_char, trim_spec, trim_str};

verus! {

/// The number a token contributes: the token is trimmed, an empty remainder
/// is skipped, anything that does not parse as a decimal `u64` is skipped.
pub open spec fn token_value(t: Seq<char>) -> Option<u64> {
    let tr = trim_spec(t);
    if tr.len() == 0 {
        None
    } else {
        parse_u64_spec(tr)
    }
}

/// The numbers contributed by a token list, in order.
pub open spec fn tokens_values(tokens: Seq<Seq<char>>) -> Seq<u64>
    decreases tokens.len(),
{
    if tokens.len() == 0 {
        Seq::empty()
    } else {
        let rest = tokens_values(tokens.drop_last());
        match token_value(tokens.last()) {
            Some(v) => rest.push(v),
            None => rest,
        }
    }
}

/// The values of a flat space-separated integer line (for example a per-CPU
/// usage list), unparsable tokens skipped.
pub open spec fn line_to_vec_spec(line: Seq<char>) -> Seq<u64> {
    tokens_values(spec_split(line, ' '))
}

/// Parses a flat space-separated list of integers.
pub fn line_to_vec(line: &str) -> (r: Vec<u64>)
    ensures
        r@ == line_to_vec_spec(line@),
{
    let tokens = split_char(line, ' ');
    let ghost toks = spec_split(line@, ' ');
    let mut r: Vec<u64> = Vec::new();
    proof {
        assert(toks.take(0) =~= Seq::<Seq<char>>::empty());
        assert(r@ =~= tokens_values(toks.take(0)));
    }
    let n = tokens.len();
    let mut i: usize = 0;
    while i < n
        invariant
            0 <= i <= n,
            n == tokens@.len(),
            tokens.deep_view() == toks,
            toks.len() == n,
            r@ == tokens_values(toks.take(i as int)),
        decreases n - i,
    {
        proof {
            assert(tokens@[i as int]@ == toks[i as int]);
            assert(toks.take(i + 1).drop_last() =~= toks.take(i as int));
            assert(toks.take(i + 1).last() == toks[i as int]);
        }
        let t = trim_str(tokens[i].as_str());
        if t.unicode_len() > 0 {
            match parse_u64(t) {
                Some(v) => {
                    r.push(v);
                },
                None => {},
            }
        }
        i = i + 1;
    }
    proof {
        assert(toks.take(n as int) =~= toks);
    }
    r
}

/// The key/value pair a line contributes: exactly two space-separated
/// fields, the second parsing as a decimal `u64` after trimming; any other
/// line contributes nothing.
pub open spec fn line_kv(line: Seq<char>) -> Option<(Seq<char>, u64)> {
    let t = spec_split(line, ' ');
    if t.len() != 2 {
        None
    } else {
        match parse_u64_spec(trim_spec(t[1])) {
            Some(v) => Some((t[0], v)),
            None => None,
        }
    }
}

/// The key/value pairs contributed by a sequence of lines, in order.
pub open spec fn lines_pairs(lines: Seq<Seq<char>>) -> Seq<(Seq<char>, u64)>
    decreases lines.len(),
{
    if lines.len() == 0 {
        Seq::empty()
    } else {
        let rest = lines_pairs(lines.drop_last());
        match line_kv(lines.last()) {
            Some(p) => rest.push(p),
            None => rest,
        }
    }
}

/// The mapping described by a `key value`-per-line controller file; a later
/// line for the same key shadows an earlier one.
pub open spec fn lines_to_map_spec(text: Seq<char>) -> Map<Seq<char>, u64> {
    kv_fold(lines_pairs(spec_split(text, '\n')))
}

/// Parses a `key value`-per-line controller file.
pub fn lines_to_map(text: &str) -> (r: KvMap<u64>)
    ensures
        r.pairs() == lines_pairs(spec_split(text@, '\n')),
        r@ == lines_to_map_spec(text@),
{
    let lines = split_char(text, '\n');
    let ghost ls = spec_split(text@, '\n');
    let mut r: KvMap<u64> = KvMap::new();
    proof {
        assert(ls.take(0) =~= Seq::<Seq<char>>::empty());
        assert(r.pairs() =~= lines_pairs(ls.take(0)));
    }
    let n = lines.len();
    let mut i: usize = 0;
    while i < n
        invariant
            0 <= i <= n,
            n == lines@.len(),
            lines.deep_view() == ls,
            ls.len() == n,
            r.pairs() == lines_pairs(ls.take(i as int)),
        decreases n - i,
    {
        proof {
            assert(lines@[i as int]@ == ls[i as int]);
            assert(ls.take(i + 1).drop_last() =~= ls.take(i as int));
            assert(ls.take(i + 1).last() == ls[i as int]);
        }
        let fields = split_char(lines[i].as_str(), ' ');
        if fields.len() == 2 {
            proof {
                assert(fields@[0]@ == spec_split(ls[i as int], ' ')[0]);
                assert(fields@[1]@ == spec_split(ls[i as int], ' ')[1]);
            }
            let v = trim_str(fields[1].as_str());
            match parse_u64(v) {
                Some(value) => {
                    let key = fields[0].clone();
                    r.insert(key, value);
                },
                None => {},
            }
        }
        i = i + 1;
    }
    proof {
        assert(ls.take(n as int) =~= ls);
    }
    r
}

} // verus!

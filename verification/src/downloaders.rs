//! The host-side downloader surface: which roster directories exist, how
//! their names parse, and how a fetched display name is tamed into
//! something the badge can render. The network clients themselves live
//! outside this library; only their decisions are here.

use vstd::prelude::*;
use vstd::slice::{slice_index_get, slice_subrange};
use vstd::string::StrSliceExecFns;
use vstd::utf8::encode_utf8;

verus! {

/// A roster directory a system can be fetched from.
#[derive(Eq, PartialEq, Structural, Debug, Clone, Copy)]
pub enum Source {
    PluralKit,
}

impl Source {
    /// The short name used in file names and command lines.
    pub fn short_identifier(&self) -> (r: &'static str)
        ensures
            r@ == "pk"@,
    {
        "pk"
    }
}

impl core::str::FromStr for Source {
    type Err = ParseError;

    /// Parses a directory's long or short name.
    fn from_str(s: &str) -> Result<Source, ParseError> {
        if crate::file::bytes_eq(s.as_bytes(), "pk".as_bytes()) || crate::file::bytes_eq(
            s.as_bytes(),
            "PluralKit".as_bytes(),
        ) {
            Ok(Source::PluralKit)
        } else {
            Err(ParseError)
        }
    }
}

/// A source name that matched no known directory.
#[derive(Eq, PartialEq, Structural, Debug, Clone, Copy)]
pub struct ParseError;

/// Shared configuration of the downloaders: the user agent they identify
/// as.
#[derive(Debug, Clone)]
pub struct GenericDownloader {
    pub useragent: String,
}

impl GenericDownloader {
    pub fn new() -> (r: GenericDownloader)
        ensures
            r.useragent@ == "sysbadge downloader"@,
    {
        GenericDownloader { useragent: String::from_str("sysbadge downloader") }
    }
}

/// A byte that survives the display-name filter: ASCII alphanumerics and
/// punctuation, spaces and tabs.
pub open spec fn is_kept_byte(c: u8) -> bool {
    ||| 0x30 <= c <= 0x39
    ||| 0x41 <= c <= 0x5a
    ||| 0x61 <= c <= 0x7a
    ||| 0x21 <= c <= 0x2f
    ||| 0x3a <= c <= 0x40
    ||| 0x5b <= c <= 0x60
    ||| 0x7b <= c <= 0x7e
    ||| c == 0x20
    ||| c == 0x09
}

/// A space or a tab.
pub open spec fn is_ws_byte(c: u8) -> bool {
    c == 0x20 || c == 0x09
}

/// Whether the name is cut before position `i`: a tab, or a space that
/// starts a run of spaces reaching the next two positions or the end.
pub open spec fn cut_condition(b: Seq<u8>, i: int) -> bool {
    ||| b[i] == 0x09
    ||| (b[i] == 0x20 && forall|k: int| i <= k < i + 3 && k < b.len() ==> b[k] == 0x20)
}

/// The first position the name is cut at, or its length.
pub open spec fn cut_from(b: Seq<u8>, i: int) -> int
    decreases b.len() - i,
{
    if i < 0 || i >= b.len() {
        b.len() as int
    } else if cut_condition(b, i) {
        i
    } else {
        cut_from(b, i + 1)
    }
}

/// The bytes that survive the filter, in order.
pub open spec fn keep_filter(b: Seq<u8>) -> Seq<u8>
    decreases b.len(),
{
    if b.len() == 0 {
        Seq::empty()
    } else {
        (if is_kept_byte(b[0]) {
            seq![b[0]]
        } else {
            Seq::empty()
        }) + keep_filter(b.drop_first())
    }
}

/// The bytes with leading whitespace removed.
pub open spec fn trim_start(b: Seq<u8>) -> Seq<u8>
    decreases b.len(),
{
    if b.len() > 0 && is_ws_byte(b[0]) {
        trim_start(b.drop_first())
    } else {
        b
    }
}

/// The bytes with trailing whitespace removed.
pub open spec fn trim_end(b: Seq<u8>) -> Seq<u8>
    decreases b.len(),
{
    if b.len() > 0 && is_ws_byte(b.last()) {
        trim_end(b.drop_last())
    } else {
        b
    }
}

/// What `transform_name` computes, over the name's UTF-8 bytes: the name
/// is cut at the first tab or run of spaces, everything but ASCII
/// alphanumerics, punctuation, spaces and tabs is dropped, and the
/// remainder is trimmed.
pub open spec fn transform_spec(b: Seq<u8>) -> Seq<u8> {
    trim_end(trim_start(keep_filter(b.take(cut_from(b, 0)))))
}

/// Relies on `String::from_utf8`: ASCII bytes decode to the characters
/// with the same codes.
#[verifier::external_body]
fn ascii_string(bytes: Vec<u8>) -> (r: String)
    requires
        forall|i: int| 0 <= i < bytes@.len() ==> bytes@[i] < 128,
    ensures
        r@.len() == bytes@.len(),
        forall|i: int| 0 <= i < bytes@.len() ==> r@[i] == bytes@[i] as char,
{
    String::from_utf8(bytes).unwrap_or_default()
}

/// Tames a display name fetched from a directory into something the
/// badge's ASCII fonts can render: cut at the first tab or run of three
/// spaces, stripped of non-ASCII characters, and trimmed.
pub fn transform_name(input: &str) -> (r: String)
    ensures
        encode_utf8(r@) == transform_spec(encode_utf8(input@)),
{
    let b = input.as_bytes();
    let n = b.len();
    let ghost bs = b@;

    // where the name is cut
    let mut cut: usize = n;
    let mut i: usize = 0;
    while i < n
        invariant_except_break
            i <= n,
            cut == n,
            bs == b@,
            n == bs.len(),
            cut_from(bs, 0) == cut_from(bs, i as int),
        ensures
            cut == cut_from(bs, 0),
            cut <= n,
        decreases n - i,
    {
        let c = *slice_index_get(b, i);
        let spaces3 = c == 0x20 && (n - i <= 1 || *slice_index_get(b, i + 1) == 0x20) && (n - i
            <= 2 || *slice_index_get(b, i + 2) == 0x20);
        if c == 0x09 || spaces3 {
            proof {
                assert(cut_condition(bs, i as int));
            }
            cut = i;
            break ;
        }
        proof {
            assert(!cut_condition(bs, i as int));
        }
        i = i + 1;
    }
    proof {
        assert(cut == cut_from(bs, 0));
    }

    // filter the kept bytes
    let ghost pre = bs.take(cut as int);
    let mut kept: Vec<u8> = Vec::new();
    let mut j: usize = 0;
    proof {
        assert(pre.skip(0) =~= pre);
    }
    while j < cut
        invariant
            j <= cut,
            cut <= n,
            bs == b@,
            n == bs.len(),
            pre == bs.take(cut as int),
            keep_filter(pre) == kept@ + keep_filter(pre.skip(j as int)),
            forall|k: int| 0 <= k < kept@.len() ==> is_kept_byte(#[trigger] kept@[k]),
        decreases cut - j,
    {
        proof {
            assert(pre.skip(j as int).drop_first() =~= pre.skip(j as int + 1));
            assert(pre.skip(j as int)[0] == bs[j as int]);
        }
        let c = *slice_index_get(b, j);
        let keep = (0x30 <= c && c <= 0x39) || (0x41 <= c && c <= 0x5a) || (0x61 <= c && c
            <= 0x7a) || (0x21 <= c && c <= 0x2f) || (0x3a <= c && c <= 0x40) || (0x5b <= c && c
            <= 0x60) || (0x7b <= c && c <= 0x7e) || c == 0x20 || c == 0x09;
        if keep {
            kept.push(c);
        }
        proof {
            assert(keep_filter(pre) =~= kept@ + keep_filter(pre.skip(j as int + 1)));
        }
        j = j + 1;
    }
    proof {
        assert(pre.skip(cut as int) =~= Seq::<u8>::empty());
        assert(kept@ =~= keep_filter(pre));
    }

    // trim both ends
    let mut start: usize = 0;
    let klen = kept.len();
    proof {
        assert(kept@.skip(0) =~= kept@);
    }
    while start < klen && (kept[start] == 0x20 || kept[start] == 0x09)
        invariant
            start <= klen,
            klen == kept@.len(),
            trim_start(kept@) == trim_start(kept@.skip(start as int)),
        decreases klen - start,
    {
        proof {
            assert(kept@.skip(start as int).drop_first() =~= kept@.skip(start as int + 1));
        }
        start = start + 1;
    }
    proof {
        assert(trim_start(kept@) =~= kept@.skip(start as int));
    }
    let mut end: usize = klen;
    let ghost ts = kept@.skip(start as int);
    proof {
        assert(ts =~= kept@.subrange(start as int, klen as int));
    }
    while end > start && (kept[end - 1] == 0x20 || kept[end - 1] == 0x09)
        invariant
            start <= end <= klen,
            klen == kept@.len(),
            trim_end(ts) == trim_end(kept@.subrange(start as int, end as int)),
        decreases end - start,
    {
        proof {
            assert(kept@.subrange(start as int, end as int).drop_last() =~= kept@.subrange(
                start as int,
                end as int - 1,
            ));
        }
        end = end - 1;
    }
    proof {
        assert(trim_end(ts) =~= kept@.subrange(start as int, end as int));
    }
    let out = vstd::slice::slice_to_vec(slice_subrange(kept.as_slice(), start, end));
    proof {
        assert(out@ == transform_spec(bs));
        vstd::utf8::is_ascii_chars_encode_utf8(out@.map_values(|c: u8| c as char));
    }
    let s = ascii_string(out);
    proof {
        let chars = s@;
        assert(vstd::utf8::is_ascii_chars(chars));
        vstd::utf8::is_ascii_chars_encode_utf8(chars);
        assert(encode_utf8(chars) =~= transform_spec(encode_utf8(input@)));
    }
    s
}

} // verus!

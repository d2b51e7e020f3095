//! The in-process part of a search request: turning the raw query into
//! lower-cased words and reducing a fetched result set to the streams that
//! match.
//!
//! A stream matches when its lower-cased title contains at least one query
//! word as a substring, and the language constraint, if any, equals the
//! stream's language code exactly.

use vstd::prelude::*;
use vstd::seq_lib::group_seq_properties;

use crate::text::{
    chars_of, contains_sub, is_space, is_space_char, is_substring_of, lower_of, str_eq,
    to_lowercase,
};
use crate::twitch::{clamp_i64, Category, Stream};

verus! {

/// The parameters of one inbound search request.
pub struct SearchParams {
    pub category: Category,
    pub query: String,
    pub language: String,
}

/// Splitting on white space, walked left to right: `cur` is the token under
/// construction and `acc` the finished tokens.
pub open spec fn split_acc(s: Seq<char>, cur: Seq<char>, acc: Seq<Seq<char>>) -> Seq<Seq<char>>
    decreases s.len(),
{
    if s.len() == 0 {
        if cur.len() == 0 {
            acc
        } else {
            acc.push(cur)
        }
    } else if is_space_char(s[0]) {
        if cur.len() == 0 {
            split_acc(s.drop_first(), Seq::empty(), acc)
        } else {
            split_acc(s.drop_first(), Seq::empty(), acc.push(cur))
        }
    } else {
        split_acc(s.drop_first(), cur.push(s[0]), acc)
    }
}

/// The maximal runs of non-white-space characters, in order.
pub open spec fn split_whitespace(s: Seq<char>) -> Seq<Seq<char>> {
    split_acc(s, Seq::empty(), Seq::empty())
}

/// The query words derived from a raw query string: split on white space,
/// each token lower-cased. An empty query yields no words.
pub open spec fn query_words(q: Seq<char>) -> Seq<Seq<char>> {
    split_whitespace(q).map_values(|t: Seq<char>| lower_of(t))
}

/// Splits the raw query on white space and lower-cases each token.
pub fn create_query_words(query: &str) -> (words: Vec<String>)
    ensures
        words@.map_values(|w: String| w@) == query_words(query@),
{
    broadcast use group_seq_properties;

    let n = query.unicode_len();
    let mut words: Vec<String> = Vec::new();
    let ghost mut toks: Seq<Seq<char>> = Seq::empty();
    let mut start: usize = 0;
    let mut i: usize = 0;
    proof {
        assert(query@.skip(0) =~= query@);
        assert(query@.subrange(0, 0) =~= Seq::<char>::empty());
        assert(words@.map_values(|w: String| w@) =~= toks.map_values(|t: Seq<char>| lower_of(t)));
    }
    while i < n
        invariant
            start <= i <= n,
            n == query@.len(),
            words@.map_values(|w: String| w@) == toks.map_values(|t: Seq<char>| lower_of(t)),
            split_acc(query@.skip(i as int), query@.subrange(start as int, i as int), toks)
                == split_whitespace(query@),
        decreases n - i,
    {
        let ghost tail = query@.skip(i as int);
        let ghost cur = query@.subrange(start as int, i as int);
        proof {
            assert(tail[0] == query@[i as int]);
            assert(tail.drop_first() =~= query@.skip(i + 1));
        }
        let c = query.get_char(i);
        if is_space(c) {
            if start < i {
                let token = query.substring_char(start, i);
                let word = to_lowercase(token);
                words.push(word);
                proof {
                    let f = |w: String| w@;
                    let g = |t: Seq<char>| lower_of(t);
                    assert(words@.map_values(f) =~= toks.map_values(g).push(lower_of(cur)));
                    toks = toks.push(cur);
                    assert(words@.map_values(f) =~= toks.map_values(g));
                }
            }
            i = i + 1;
            start = i;
            proof {
                assert(query@.subrange(i as int, i as int) =~= Seq::<char>::empty());
            }
        } else {
            i = i + 1;
            proof {
                assert(query@.subrange(start as int, i as int) =~= cur.push(query@[i - 1]));
            }
        }
    }
    proof {
        assert(query@.skip(n as int) =~= Seq::<char>::empty());
    }
    if start < n {
        let token = query.substring_char(start, n);
        let word = to_lowercase(token);
        words.push(word);
        proof {
            let ghost cur = query@.subrange(start as int, n as int);
            let f = |w: String| w@;
            let g = |t: Seq<char>| lower_of(t);
            assert(words@.map_values(f) =~= toks.map_values(g).push(lower_of(cur)));
            toks = toks.push(cur);
            assert(words@.map_values(f) =~= toks.map_values(g));
        }
    }
    words
}

/// Whether one stream survives the filter: some query word occurs in the
/// lower-cased title, and the language constraint is empty or equals the
/// stream's language exactly.
pub open spec fn stream_matches(s: Stream, words: Seq<Seq<char>>, language: Seq<char>) -> bool {
    (exists|i: int| 0 <= i < words.len() && is_substring_of(#[trigger] words[i], lower_of(s.title@)))
        && (language.len() == 0 || s.language@ == language)
}

/// The streams that survive the filter, in their original order.
pub open spec fn matching_streams(
    streams: Seq<Stream>,
    words: Seq<Seq<char>>,
    language: Seq<char>,
) -> Seq<Stream> {
    streams.filter(|s: Stream| stream_matches(s, words, language))
}

proof fn lemma_matching_push(
    streams: Seq<Stream>,
    s: Stream,
    words: Seq<Seq<char>>,
    language: Seq<char>,
)
    ensures
        matching_streams(streams.push(s), words, language) == if stream_matches(
            s,
            words,
            language,
        ) {
            matching_streams(streams, words, language).push(s)
        } else {
            matching_streams(streams, words, language)
        },
{
    reveal(Seq::filter);
    assert(streams.push(s).drop_last() =~= streams);
    assert(streams.push(s).last() == s);
}

fn stream_matches_exec(s: &Stream, word_chars: &Vec<Vec<char>>, language: &str) -> (r: bool)
    ensures
        r == stream_matches(*s, word_chars@.map_values(|v: Vec<char>| v@), language@),
{
    let lowered = to_lowercase(s.title.as_str());
    let title = chars_of(lowered.as_str());
    let ghost wv = word_chars@.map_values(|v: Vec<char>| v@);
    let mut any = false;
    let mut i: usize = 0;
    let n = word_chars.len();
    while i < n
        invariant
            i <= n,
            n == word_chars@.len(),
            wv == word_chars@.map_values(|v: Vec<char>| v@),
            title@ == lower_of(s.title@),
            any == (exists|j: int| 0 <= j < i && is_substring_of(#[trigger] wv[j], title@)),
        decreases n - i,
    {
        let hit = contains_sub(&title, &word_chars[i]);
        proof {
            assert(wv[i as int] == word_chars@[i as int]@);
        }
        if hit {
            any = true;
            proof {
                assert(is_substring_of(wv[i as int], title@));
            }
        } else {
            proof {
                assert(!is_substring_of(wv[i as int], title@));
            }
        }
        i = i + 1;
    }
    let lang_ok = language.is_empty() || str_eq(s.language.as_str(), language);
    any && lang_ok
}

/// Keeps exactly the streams that match the query words and the language
/// constraint, preserving their order.
pub fn filter_streams(streams: Vec<Stream>, words: &Vec<String>, language: &str) -> (out: Vec<
    Stream,
>)
    ensures
        out@ == matching_streams(streams@, words@.map_values(|w: String| w@), language@),
{
    let ghost orig = streams@;
    let ghost wv = words@.map_values(|w: String| w@);
    let mut word_chars: Vec<Vec<char>> = Vec::new();
    let mut j: usize = 0;
    let m = words.len();
    while j < m
        invariant
            j <= m,
            m == words@.len(),
            word_chars@.len() == j,
            forall|j2: int| 0 <= j2 < j ==> (#[trigger] word_chars@[j2])@ == words@[j2]@,
        decreases m - j,
    {
        word_chars.push(chars_of(words[j].as_str()));
        j = j + 1;
    }
    proof {
        assert(word_chars@.map_values(|v: Vec<char>| v@) =~= wv);
    }
    let mut rest = streams;
    let ghost mut processed: Seq<Stream> = Seq::empty();
    let mut out: Vec<Stream> = Vec::new();
    proof {
        assert(processed + rest@ =~= orig);
        assert(out@ =~= matching_streams(processed, wv, language@));
    }
    while rest.len() > 0
        invariant
            processed + rest@ == orig,
            out@ == matching_streams(processed, wv, language@),
            wv == words@.map_values(|w: String| w@),
            word_chars@.map_values(|v: Vec<char>| v@) == wv,
        decreases rest@.len(),
    {
        let s = rest.remove(0);
        let keep = stream_matches_exec(&s, &word_chars, language);
        proof {
            lemma_matching_push(processed, s, wv, language@);
        }
        if keep {
            out.push(s);
            proof {
                processed = processed.push(s);
            }
        } else {
            proof {
                processed = processed.push(s);
            }
        }
        proof {
            assert(processed + rest@ =~= orig);
        }
    }
    proof {
        assert(processed =~= orig);
    }
    out
}

/// The reduced form of a stream that the JSON search route reports.
#[derive(Debug, Clone, PartialEq)]
pub struct SimpleStream {
    pub title: String,
    pub username: String,
    pub language: String,
    /// How long the broadcast has been running, in seconds.
    pub stream_time: Option<i64>,
    pub viewer_count: u64,
}

impl SimpleStream {
    /// Reduces one stream, computing the running time against `now` (Unix
    /// seconds), saturated at the ends of the `i64` range.
    pub fn from_stream(stream: Stream, now: i64) -> (r: SimpleStream)
        ensures
            r.title == stream.title,
            r.username == stream.user_name,
            r.language == stream.language,
            r.viewer_count == stream.viewer_count,
            stream.started_at matches Some(t) ==> (r.stream_time matches Some(d) && d as int
                == clamp_i64(now - t)),
            stream.started_at is None ==> r.stream_time is None,
    {
        let stream_time = match stream.started_at {
            Some(t) => {
                let wide: i128 = now as i128 - t as i128;
                let d: i64 = if wide < i64::MIN as i128 {
                    i64::MIN
                } else if wide > i64::MAX as i128 {
                    i64::MAX
                } else {
                    wide as i64
                };
                Some(d)
            },
            None => None,
        };
        SimpleStream {
            title: stream.title,
            username: stream.user_name,
            language: stream.language,
            stream_time,
            viewer_count: stream.viewer_count,
        }
    }
}

} // verus!

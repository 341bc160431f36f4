//! Query expansion (synonym substitution and a stop-word-free keyword
//! reformulation) and keyword extraction, on jieba's segmentation.

use vstd::prelude::*;
use crate::text::{chars_of, equals_str, join_strings, join_with, lower_of, lowercase};

verus! {

#[verifier::external_type_specification]
#[verifier::external_body]
pub struct ExJieba(jieba_rs::Jieba);

/// The words of each string.
pub open spec fn views(v: Seq<String>) -> Seq<Seq<char>> {
    v.map_values(|s: String| s@)
}

/// The words of `s` as jieba's default dictionary cuts it in exact mode,
/// without the HMM.
pub uninterp spec fn default_cut_of(s: Seq<char>) -> Seq<Seq<char>>;

/// The words of `s` as jieba's default dictionary cuts it in search mode,
/// with the HMM.
pub uninterp spec fn default_search_cut_of(s: Seq<char>) -> Seq<Seq<char>>;

/// What `str::replace` makes of `s` with every `from` replaced by `to`.
pub uninterp spec fn replace_of(s: Seq<char>, from: Seq<char>, to: Seq<char>) -> Seq<char>;

/// The stop words that the stop-words crate lists for a language code.
pub uninterp spec fn stop_words_of(language: Seq<char>) -> Option<Seq<Seq<char>>>;

/// Relies on `jieba_rs::Jieba::new`: a segmenter with the embedded default
/// dictionary. Every segmenter of this library comes from here.
#[verifier::external_body]
fn default_segmenter() -> jieba_rs::Jieba {
    jieba_rs::Jieba::new()
}

/// Relies on `jieba_rs::Jieba::cut` with `hmm = false` on a default
/// segmenter: a deterministic function of the text.
#[verifier::external_body]
fn cut_exact(jieba: &jieba_rs::Jieba, s: &str) -> (r: Vec<String>)
    ensures
        views(r@) == default_cut_of(s@),
{
    jieba.cut(s, false).into_iter().map(|t| t.word.to_string()).collect()
}

/// Relies on `jieba_rs::Jieba::cut_for_search` with `hmm = true` on a
/// default segmenter: a deterministic function of the text.
#[verifier::external_body]
fn cut_search(jieba: &jieba_rs::Jieba, s: &str) -> (r: Vec<String>)
    ensures
        views(r@) == default_search_cut_of(s@),
{
    jieba.cut_for_search(s, true).into_iter().map(|t| t.word.to_string()).collect()
}

/// Relies on `str::replace`: a function of the three strings.
#[verifier::external_body]
fn replace_all(s: &str, from: &str, to: &str) -> (r: String)
    ensures
        r@ == replace_of(s@, from@, to@),
{
    s.replace(from, to)
}

/// Relies on `stop_words::lookup`: the list compiled into the crate for a
/// language code, or nothing for a code it does not know.
#[verifier::external_body]
fn lookup_stop_words(language: &str) -> (r: Option<Vec<String>>)
    ensures
        match r {
            Some(v) => stop_words_of(language@) == Some(views(v@)),
            None => stop_words_of(language@) is None,
        },
{
    stop_words::lookup(language).map(|w| w.iter().map(|s| s.to_string()).collect())
}

/// The language whose stop words keyword extraction drops.
pub const STOP_WORD_LANGUAGE: &'static str = "zh";

/// The short list of function words that the keyword reformulation drops.
pub open spec fn is_stop_word_spec(w: Seq<char>) -> bool {
    w == "的"@ || w == "是"@ || w == "了"@ || w == "吗"@ || w == "呢"@ || w == "吧"@ || w == "啊"@ || w
        == "我"@ || w == "你"@ || w == "他"@ || w == "她"@ || w == "它"@
}

pub fn is_stop_word(word: &str) -> (r: bool)
    ensures
        r == is_stop_word_spec(word@),
{
    let w = chars_of(word);
    equals_str(&w, "的") || equals_str(&w, "是") || equals_str(&w, "了") || equals_str(&w, "吗")
        || equals_str(&w, "呢") || equals_str(&w, "吧") || equals_str(&w, "啊") || equals_str(&w, "我")
        || equals_str(&w, "你") || equals_str(&w, "他") || equals_str(&w, "她") || equals_str(&w, "它")
}

/// The words of `s` that are not stop words, in order.
pub open spec fn without_stop_words(s: Seq<Seq<char>>) -> Seq<Seq<char>>
    decreases s.len(),
{
    if s.len() == 0 {
        s
    } else if is_stop_word_spec(s.last()) {
        without_stop_words(s.drop_last())
    } else {
        without_stop_words(s.drop_last()).push(s.last())
    }
}

/// The words of `s` not in `stop`, in order.
pub open spec fn without_listed(s: Seq<Seq<char>>, stop: Seq<Seq<char>>) -> Seq<Seq<char>>
    decreases s.len(),
{
    if s.len() == 0 {
        s
    } else if stop.contains(s.last()) {
        without_listed(s.drop_last(), stop)
    } else {
        without_listed(s.drop_last(), stop).push(s.last())
    }
}

/// The words joined by single spaces.
pub open spec fn join_spaced(s: Seq<Seq<char>>) -> Seq<char>
    decreases s.len(),
{
    if s.len() == 0 {
        Seq::empty()
    } else if s.len() == 1 {
        s[0]
    } else {
        join_spaced(s.drop_last()) + " "@ + s.last()
    }
}

/// `acc` with `x` appended unless it is there already.
pub open spec fn add_unique(acc: Seq<Seq<char>>, x: Seq<char>) -> Seq<Seq<char>> {
    if acc.contains(x) {
        acc
    } else {
        acc.push(x)
    }
}

/// The synonyms listed for `word`, if it has an entry.
pub open spec fn synonyms_for(table: Seq<(String, Vec<String>)>, word: Seq<char>, n: int) -> Option<
    Seq<String>,
>
    decreases n,
{
    if n <= 0 {
        None
    } else {
        let f = synonyms_for(table, word, n - 1);
        if f is Some {
            f
        } else if table[n - 1].0@ == word {
            Some(table[n - 1].1@)
        } else {
            None
        }
    }
}

/// `acc` with the query rewritten by each of the first `m` synonyms of `token`.
pub open spec fn add_replacements(
    acc: Seq<Seq<char>>,
    query: Seq<char>,
    token: Seq<char>,
    synonyms: Seq<String>,
    m: int,
) -> Seq<Seq<char>>
    decreases m,
{
    if m <= 0 {
        acc
    } else {
        add_unique(
            add_replacements(acc, query, token, synonyms, m - 1),
            replace_of(query, token, synonyms[m - 1]@),
        )
    }
}

/// `acc` with the synonym rewrites for the first `n` tokens.
pub open spec fn add_synonym_variants(
    acc: Seq<Seq<char>>,
    query: Seq<char>,
    tokens: Seq<Seq<char>>,
    table: Seq<(String, Vec<String>)>,
    n: int,
) -> Seq<Seq<char>>
    decreases n,
{
    if n <= 0 {
        acc
    } else {
        let prev = add_synonym_variants(acc, query, tokens, table, n - 1);
        match synonyms_for(table, tokens[n - 1], table.len() as int) {
            Some(syn) => add_replacements(prev, query, tokens[n - 1], syn, syn.len() as int),
            None => prev,
        }
    }
}

/// The expansions of `query` from its exact-mode `tokens` and its
/// search-mode `search_tokens`: the query itself, each synonym rewrite, and
/// the non-stop-word keywords joined by spaces, without repeats.
pub open spec fn expansions_of(
    query: Seq<char>,
    tokens: Seq<Seq<char>>,
    search_tokens: Seq<Seq<char>>,
    table: Seq<(String, Vec<String>)>,
) -> Seq<Seq<char>> {
    let with_synonyms = add_synonym_variants(seq![query], query, tokens, table, tokens.len() as int);
    let keywords = without_stop_words(search_tokens);
    if keywords.len() > 0 {
        add_unique(with_synonyms, join_spaced(keywords))
    } else {
        with_synonyms
    }
}

/// Whether some string of `v` is `x`.
fn contains_string(v: &Vec<String>, x: &String) -> (r: bool)
    ensures
        r == views(v@).contains(x@),
{
    let mut i: usize = 0;
    while i < v.len()
        invariant
            i <= v@.len(),
            forall|j: int| 0 <= j < i ==> v@[j]@ != x@,
        decreases v.len() - i,
    {
        if v[i] == *x {
            assert(views(v@)[i as int] == x@);
            return true;
        }
        i += 1;
    }
    proof {
        if views(v@).contains(x@) {
            let j = choose|j: int| 0 <= j < views(v@).len() && views(v@)[j] == x@;
            assert(v@[j]@ == x@);
        }
    }
    false
}

fn push_unique(v: &mut Vec<String>, x: String)
    ensures
        views(final(v)@) == add_unique(views(old(v)@), x@),
{
    if !contains_string(v, &x) {
        let ghost before = v@;
        v.push(x);
        assert(views(v@) =~= views(before).push(x@));
    }
}

fn copy_string_list(v: &Vec<String>) -> (r: Vec<String>)
    ensures
        r@ == v@,
{
    let mut r: Vec<String> = Vec::new();
    let mut i: usize = 0;
    while i < v.len()
        invariant
            i <= v@.len(),
            r@ == v@.subrange(0, i as int),
        decreases v.len() - i,
    {
        r.push(v[i].clone());
        assert(v@.subrange(0, i + 1) =~= v@.subrange(0, i as int).push(v@[i as int]));
        i += 1;
    }
    r
}

/// The words not in `stop`, in order.
pub fn keywords_from_tokens(tokens: &Vec<String>, stop: &Vec<String>) -> (r: Vec<String>)
    ensures
        views(r@) == without_listed(views(tokens@), views(stop@)),
{
    let mut r: Vec<String> = Vec::new();
    let mut i: usize = 0;
    while i < tokens.len()
        invariant
            i <= tokens@.len(),
            views(r@) == without_listed(views(tokens@.subrange(0, i as int)), views(stop@)),
        decreases tokens.len() - i,
    {
        let ghost pre = views(tokens@.subrange(0, i + 1));
        assert(pre.drop_last() =~= views(tokens@.subrange(0, i as int)));
        assert(pre.last() == tokens@[i as int]@);
        if !contains_string(stop, &tokens[i]) {
            let ghost before = r@;
            r.push(tokens[i].clone());
            assert(views(r@) =~= views(before).push(tokens@[i as int]@));
        }
        i += 1;
    }
    assert(tokens@.subrange(0, tokens@.len() as int) =~= tokens@);
    r
}

/// The words that are not stop words, joined by single spaces.
fn keyword_query(tokens: &Vec<String>) -> (r: (bool, String))
    ensures
        r.0 == (without_stop_words(views(tokens@)).len() > 0),
        r.0 ==> r.1@ == join_spaced(without_stop_words(views(tokens@))),
{
    let mut joined = String::new();
    let mut any = false;
    let mut i: usize = 0;
    while i < tokens.len()
        invariant
            i <= tokens@.len(),
            any == (without_stop_words(views(tokens@.subrange(0, i as int))).len() > 0),
            any ==> joined@ == join_spaced(without_stop_words(views(tokens@.subrange(0, i as int)))),
        decreases tokens.len() - i,
    {
        let ghost pre = views(tokens@.subrange(0, i + 1));
        assert(pre.drop_last() =~= views(tokens@.subrange(0, i as int)));
        assert(pre.last() == tokens@[i as int]@);
        let ghost old_ws = without_stop_words(views(tokens@.subrange(0, i as int)));
        if !is_stop_word(tokens[i].as_str()) {
            proof {
                let new_ws = without_stop_words(pre);
                assert(new_ws == old_ws.push(tokens@[i as int]@));
                assert(new_ws.drop_last() =~= old_ws);
            }
            if any {
                joined = joined.concat(" ").concat(tokens[i].as_str());
            } else {
                joined = tokens[i].clone();
            }
            any = true;
        }
        i += 1;
    }
    assert(tokens@.subrange(0, tokens@.len() as int) =~= tokens@);
    (any, joined)
}

/// The text of each word of a synonym table and of its synonyms.
pub open spec fn table_view(t: Seq<(String, Vec<String>)>) -> Seq<(Seq<char>, Seq<Seq<char>>)> {
    t.map_values(|e: (String, Vec<String>)| (e.0@, views(e.1@)))
}

/// The built-in synonyms: each word with the words that may replace it.
pub open spec fn default_synonyms() -> Seq<(Seq<char>, Seq<Seq<char>>)> {
    seq![
        ("会议"@, seq!["周会"@, "讨论会"@]),
        ("喜欢"@, seq!["偏好"@, "最爱"@]),
        ("优点"@, seq!["优势"@, "好处"@]),
        ("如何"@, seq!["怎样"@, "怎么"@]),
        ("运作"@, seq!["工作"@, "运行"@]),
    ]
}

fn synonym_entry(word: &str, first: &str, second: &str) -> (r: (String, Vec<String>))
    ensures
        r.0@ == word@,
        views(r.1@) == seq![first@, second@],
{
    let mut alternatives: Vec<String> = Vec::new();
    alternatives.push(String::from_str(first));
    alternatives.push(String::from_str(second));
    assert(views(alternatives@) =~= seq![first@, second@]);
    (String::from_str(word), alternatives)
}

/// Rewrites queries with synonyms and keywords, on jieba's segmentation.
pub struct QueryExpander {
    jieba: jieba_rs::Jieba,
    synonyms: Vec<(String, Vec<String>)>,
}

impl QueryExpander {
    /// The synonym table: each word with the words that may replace it.
    pub closed spec fn synonym_table(&self) -> Seq<(String, Vec<String>)> {
        self.synonyms@
    }

    /// An expander with the default dictionary and the built-in synonyms.
    pub fn new() -> (r: QueryExpander)
        ensures
            table_view(r.synonym_table()) == default_synonyms(),
    {
        let mut synonyms: Vec<(String, Vec<String>)> = Vec::new();
        synonyms.push(synonym_entry("会议", "周会", "讨论会"));
        synonyms.push(synonym_entry("喜欢", "偏好", "最爱"));
        synonyms.push(synonym_entry("优点", "优势", "好处"));
        synonyms.push(synonym_entry("如何", "怎样", "怎么"));
        synonyms.push(synonym_entry("运作", "工作", "运行"));
        assert(table_view(synonyms@) =~= default_synonyms());
        QueryExpander { jieba: default_segmenter(), synonyms }
    }

    fn lookup_synonyms(&self, word: &String) -> (r: Option<Vec<String>>)
        ensures
            match r {
                Some(v) => synonyms_for(self.synonyms@, word@, self.synonyms@.len() as int) == Some(v@),
                None => synonyms_for(self.synonyms@, word@, self.synonyms@.len() as int) is None,
            },
    {
        let n = self.synonyms.len();
        let mut i: usize = 0;
        while i < n
            invariant
                n == self.synonyms@.len(),
                i <= n,
                synonyms_for(self.synonyms@, word@, i as int) is None,
            decreases n - i,
        {
            if self.synonyms[i].0 == *word {
                let found = copy_string_list(&self.synonyms[i].1);
                proof {
                    lemma_synonyms_stay(self.synonyms@, word@, i + 1, n as int);
                }
                return Some(found);
            }
            i += 1;
        }
        None
    }

    /// The expansions of `query`, given its exact-mode and search-mode
    /// segmentations.
    pub fn expansions_from_tokens(&self, query: &str, tokens: &Vec<String>, search_tokens: &Vec<String>) -> (r: Vec<String>)
        ensures
            views(r@) == expansions_of(query@, views(tokens@), views(search_tokens@), self.synonym_table()),
    {
        let mut out: Vec<String> = Vec::new();
        out.push(String::from_str(query));
        assert(views(out@) =~= seq![query@]);
        let mut i: usize = 0;
        while i < tokens.len()
            invariant
                i <= tokens@.len(),
                views(out@) == add_synonym_variants(
                    seq![query@],
                    query@,
                    views(tokens@),
                    self.synonyms@,
                    i as int,
                ),
            decreases tokens.len() - i,
        {
            let token = &tokens[i];
            assert(views(tokens@)[i as int] == token@);
            match self.lookup_synonyms(token) {
                Some(syns) => {
                    let mut j: usize = 0;
                    let ghost prev = views(out@);
                    while j < syns.len()
                        invariant
                            j <= syns@.len(),
                            views(out@) == add_replacements(prev, query@, token@, syns@, j as int),
                        decreases syns.len() - j,
                    {
                        let variant = replace_all(query, token.as_str(), syns[j].as_str());
                        push_unique(&mut out, variant);
                        j += 1;
                    }
                },
                None => {},
            }
            i += 1;
        }
        let (any, joined) = keyword_query(search_tokens);
        if any {
            push_unique(&mut out, joined);
        }
        out
    }

    /// Alternative phrasings of `query`: itself first, then its synonym
    /// rewrites, then its keywords without stop words.
    pub fn expand(&self, query: &str) -> (r: Vec<String>)
        ensures
            views(r@) == expansions_of(
                query@,
                default_cut_of(query@),
                default_search_cut_of(query@),
                self.synonym_table(),
            ),
    {
        let tokens = cut_exact(&self.jieba, query);
        let search_tokens = cut_search(&self.jieba, query);
        self.expansions_from_tokens(query, &tokens, &search_tokens)
    }

    /// The lowercased search-mode words of `query` that are not stop words
    /// of the language (all of them, if the language has no list).
    pub fn extract_keywords(&self, query: &str) -> (r: Vec<String>)
        ensures
            views(r@) == without_listed(
                default_search_cut_of(query@).map_values(|w: Seq<char>| lower_of(w)),
                match stop_words_of(STOP_WORD_LANGUAGE@) {
                    Some(s) => s,
                    None => Seq::empty(),
                },
            ),
    {
        let words = cut_search(&self.jieba, query);
        let mut lowered: Vec<String> = Vec::new();
        let mut i: usize = 0;
        while i < words.len()
            invariant
                i <= words@.len(),
                lowered@.len() == i,
                forall|j: int| 0 <= j < i ==> (#[trigger] lowered@[j])@ == lower_of(words@[j]@),
            decreases words.len() - i,
        {
            lowered.push(lowercase(words[i].as_str()));
            i += 1;
        }
        assert(views(lowered@) =~= views(words@).map_values(|w: Seq<char>| lower_of(w)));
        let stop = match lookup_stop_words(STOP_WORD_LANGUAGE) {
            Some(s) => s,
            None => Vec::new(),
        };
        assert(views(stop@) == match stop_words_of(STOP_WORD_LANGUAGE@) {
            Some(s) => s,
            None => Seq::<Seq<char>>::empty(),
        }) by {
            if stop_words_of(STOP_WORD_LANGUAGE@) is None {
                assert(views(stop@) =~= Seq::<Seq<char>>::empty());
            }
        }
        keywords_from_tokens(&lowered, &stop)
    }
}

/// The two texts that the vector paths embed: the first expansion (the
/// query itself when there is none), and all expansions joined by spaces.
pub fn search_texts(query: &str, expansions: &Vec<String>) -> (r: (String, String))
    ensures
        r.0@ == (if expansions@.len() > 0 {
            expansions@[0]@
        } else {
            query@
        }),
        r.1@ == join_with(views(expansions@), " "@),
{
    let first = if expansions.len() > 0 {
        expansions[0].clone()
    } else {
        String::from_str(query)
    };
    (first, join_strings(expansions, " "))
}

proof fn lemma_synonyms_stay(table: Seq<(String, Vec<String>)>, word: Seq<char>, m: int, n: int)
    requires
        0 <= m <= n,
        synonyms_for(table, word, m) is Some,
    ensures
        synonyms_for(table, word, n) == synonyms_for(table, word, m),
    decreases n - m,
{
    if n > m {
        lemma_synonyms_stay(table, word, m, n - 1);
    }
}

} // verus!

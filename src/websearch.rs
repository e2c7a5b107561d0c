use vstd::prelude::*;

verus! {

/// The search engines that can serve a query.
#[derive(Debug, Clone, Copy, PartialEq, Eq, Structural)]
pub enum SearchEngine {
    DuckDuckGo,
}

impl Default for SearchEngine {
    fn default() -> (r: Self)
        ensures
            r == SearchEngine::DuckDuckGo,
    {
        SearchEngine::DuckDuckGo
    }
}

/// One ranked hit of a search.
#[derive(Debug)]
pub struct SearchResult {
    pub title: String,
    pub content: String,
    pub url: String,
}

/// A search hit as text.
pub struct Hit {
    pub title: Seq<char>,
    pub url: Seq<char>,
    pub content: Seq<char>,
}

impl View for SearchResult {
    type V = Hit;

    open spec fn view(&self) -> Hit {
        Hit { title: self.title@, url: self.url@, content: self.content@ }
    }
}

/// Why a search failed.
#[derive(Debug)]
pub enum WebSearchError {
    NetworkError(String),
    UrlParseError(String),
    SearchError(String),
}

/// The text that describes a search error.
pub open spec fn search_error_text(e: WebSearchError) -> Seq<char> {
    match e {
        WebSearchError::NetworkError(m) => "Network error: "@ + m@,
        WebSearchError::UrlParseError(m) => "Failed to parse URL: "@ + m@,
        WebSearchError::SearchError(m) => "Search error: "@ + m@,
    }
}

impl WebSearchError {
    /// The text that describes this error.
    pub fn message(&self) -> (r: String)
        ensures
            r@ == search_error_text(*self),
    {
        match self {
            WebSearchError::NetworkError(m) => String::from_str("Network error: ").concat(m.as_str()),
            WebSearchError::UrlParseError(m) => String::from_str("Failed to parse URL: ").concat(m.as_str()),
            WebSearchError::SearchError(m) => String::from_str("Search error: ").concat(m.as_str()),
        }
    }
}

/// What a result page holds for one result entry: the text of its title link, the
/// link's target (empty when it has none) and the text of its snippet.
#[derive(Debug)]
pub struct ResultBlock {
    pub title: Option<String>,
    pub url: String,
    pub snippet: Option<String>,
}

/// The text left when leading and trailing whitespace is removed.
pub uninterp spec fn trimmed(s: Seq<char>) -> Seq<char>;

/// Relies on `str::trim`: the result depends on the characters alone.
#[verifier::external_body]
fn trim_text(s: &str) -> (r: String)
    ensures
        r@ == trimmed(s@),
{
    s.trim().to_string()
}

/// The query as it stands in a URL, every byte percent-encoded but ASCII letters,
/// digits and `-`, `_`, `.`, `~`.
pub uninterp spec fn url_encoded(s: Seq<char>) -> Seq<char>;

/// Relies on `urlencoding::encode`: the result depends on the characters alone.
#[verifier::external_body]
fn encode_query(s: &str) -> (r: String)
    ensures
        r@ == url_encoded(s@),
{
    urlencoding::encode(s).into_owned()
}

/// The address of the result page for a query.
pub open spec fn search_address(query: Seq<char>) -> Seq<char> {
    "https://html.duckduckgo.com/html/?q="@ + url_encoded(query)
}

/// Builds the address of the result page for a query.
pub fn search_url(query: &str) -> (r: String)
    ensures
        r@ == search_address(query@),
{
    String::from_str("https://html.duckduckgo.com/html/?q=").concat(encode_query(query).as_str())
}

/// The hit of an entry that has a title, a snippet and a non-empty link.
pub open spec fn block_hit(b: ResultBlock) -> Option<Hit> {
    match (b.title, b.snippet) {
        (Some(t), Some(s)) => if b.url@.len() > 0 {
            Some(Hit { title: trimmed(t@), url: b.url@, content: trimmed(s@) })
        } else {
            None
        },
        _ => None,
    }
}

/// The hits of a run of entries, in page order.
pub open spec fn hits_of(blocks: Seq<ResultBlock>) -> Seq<Hit>
    decreases blocks.len(),
{
    if blocks.len() == 0 {
        Seq::empty()
    } else {
        let rest = hits_of(blocks.drop_last());
        match block_hit(blocks.last()) {
            Some(h) => rest.push(h),
            None => rest,
        }
    }
}

/// The entries that a search for `count` results reads: the first `count`.
pub open spec fn first_blocks(blocks: Seq<ResultBlock>, count: u64) -> Seq<ResultBlock> {
    if count as int <= blocks.len() {
        blocks.take(count as int)
    } else {
        blocks
    }
}

/// Picks the results out of the first `count` entries of a result page, in page
/// order, keeping those with a title, a snippet and a link.
pub fn collect_results(blocks: Vec<ResultBlock>, count: u64) -> (r: Vec<SearchResult>)
    ensures
        r@.map_values(|x: SearchResult| x@) == hits_of(first_blocks(blocks@, count)),
        r@.len() <= count,
{
    let limit: usize = if count < blocks.len() as u64 { count as usize } else { blocks.len() };
    let ghost wanted = first_blocks(blocks@, count);
    assert(wanted =~= blocks@.subrange(0, limit as int));
    let mut r: Vec<SearchResult> = Vec::new();
    let mut i: usize = 0;
    while i < limit
        invariant
            limit <= blocks@.len(),
            i <= limit,
            wanted =~= blocks@.subrange(0, limit as int),
            r@.map_values(|x: SearchResult| x@) == hits_of(blocks@.subrange(0, i as int)),
            r@.len() <= i,
        decreases limit - i,
    {
        assert(blocks@.subrange(0, i + 1).drop_last() =~= blocks@.subrange(0, i as int));
        assert(blocks@.subrange(0, i + 1).last() == blocks@[i as int]);
        let block = &blocks[i];
        match (&block.title, &block.snippet) {
            (Some(t), Some(s)) => {
                if !block.url.as_str().is_empty() {
                    let hit = SearchResult {
                        title: trim_text(t.as_str()),
                        content: trim_text(s.as_str()),
                        url: block.url.clone(),
                    };
                    assert(block_hit(blocks@[i as int]) == Some(hit@));
                    let ghost before = r@;
                    r.push(hit);
                    assert(r@.map_values(|x: SearchResult| x@) =~= before.map_values(
                        |x: SearchResult| x@,
                    ).push(hit@));
                }
            },
            _ => {},
        }
        i = i + 1;
    }
    r
}

/// The rendering of one hit.
pub open spec fn hit_text(h: Hit) -> Seq<char> {
    "Title: "@ + h.title + "\nURL: "@ + h.url + "\nContent: "@ + h.content + "\n---"@
}

/// The renderings of hits, one after another, separated by a newline.
pub open spec fn hits_text(hits: Seq<Hit>) -> Seq<char>
    decreases hits.len(),
{
    if hits.len() == 0 {
        Seq::empty()
    } else if hits.len() == 1 {
        hit_text(hits[0])
    } else {
        hits_text(hits.drop_last()) + "\n"@ + hit_text(hits.last())
    }
}

/// Renders search results as text, in their order.
pub fn render_results(results: &Vec<SearchResult>) -> (r: String)
    ensures
        r@ == hits_text(results@.map_values(|x: SearchResult| x@)),
{
    let ghost hits = results@.map_values(|x: SearchResult| x@);
    let mut r = String::new();
    let mut i: usize = 0;
    while i < results.len()
        invariant
            i <= results@.len(),
            hits == results@.map_values(|x: SearchResult| x@),
            r@ == hits_text(hits.subrange(0, i as int)),
        decreases results.len() - i,
    {
        assert(hits.subrange(0, i + 1).drop_last() =~= hits.subrange(0, i as int));
        let x = &results[i];
        let one = String::from_str("Title: ")
            .concat(x.title.as_str())
            .concat("\nURL: ")
            .concat(x.url.as_str())
            .concat("\nContent: ")
            .concat(x.content.as_str())
            .concat("\n---");
        assert(one@ == hit_text(hits[i as int]));
        if i == 0 {
            r = one;
        } else {
            r = r.concat("\n").concat(one.as_str());
        }
        i = i + 1;
    }
    assert(hits.subrange(0, i as int) =~= hits);
    r
}

} // verus!

use vstd::prelude::*;
use vstd::string::*;
use crate::format::{decimal, push_decimal};
use crate::record::{views, ReviewRecord, ReviewView};
use crate::text::chars_of;

verus! {

/// How a link is crawled: one product page, or a paginated review listing.
#[derive(Clone, Copy, Debug, PartialEq, Eq, Structural)]
pub enum Mode {
    SinglePage,
    MultiPage,
}

/// Whether `p` occurs in `s` as a contiguous block.
pub open spec fn contains_seq(s: Seq<char>, p: Seq<char>) -> bool {
    exists|i: int| 0 <= i <= s.len() - p.len() && #[trigger] s.subrange(i, i + p.len()) == p
}

/// The mode that a link asks for: a product page of the site is crawled
/// alone, a review listing of the site page by page; any other link is
/// not crawled.
pub open spec fn mode_of(url: Seq<char>) -> Option<Mode> {
    if !contains_seq(url, "flipkart.com"@) {
        None
    } else if contains_seq(url, "/p/"@) {
        Some(Mode::SinglePage)
    } else if contains_seq(url, "/product-reviews/"@) {
        Some(Mode::MultiPage)
    } else {
        None
    }
}

/// The link of page `page` of a listing: the query parameter is appended to
/// the base link.
pub open spec fn page_link_spec(base: Seq<char>, page: nat) -> Seq<char> {
    base + "&page="@ + decimal(page)
}

fn matches_at(s: &Vec<char>, p: &Vec<char>, i: usize) -> (r: bool)
    requires
        i + p@.len() <= s@.len(),
    ensures
        r == (s@.subrange(i as int, i + p@.len()) == p@),
{
    let n = s.len();
    let mut k: usize = 0;
    while k < p.len()
        invariant
            n == s@.len(),
            i + p@.len() <= s@.len(),
            k <= p@.len(),
            forall|m: int| 0 <= m < k ==> s@[i + m] == p@[m],
        decreases p@.len() - k,
    {
        if s[i + k] != p[k] {
            assert(s@.subrange(i as int, i + p@.len())[k as int] != p@[k as int]);
            return false;
        }
        k += 1;
    }
    assert(s@.subrange(i as int, i + p@.len()) =~= p@);
    true
}

fn contains_chars(s: &Vec<char>, p: &Vec<char>) -> (r: bool)
    ensures
        r == contains_seq(s@, p@),
{
    if p.len() > s.len() {
        return false;
    }
    let last = s.len() - p.len();
    let mut i: usize = 0;
    while i < last
        invariant
            i <= last,
            last == s@.len() - p@.len(),
            forall|j: int| 0 <= j < i ==> #[trigger] s@.subrange(j, j + p@.len()) != p@,
        decreases last - i,
    {
        if matches_at(s, p, i) {
            return true;
        }
        i += 1;
    }
    matches_at(s, p, last)
}

/// The crawl mode of a link, or `None` for a link of another kind.
pub fn detect_mode(url: &str) -> (r: Option<Mode>)
    ensures
        r == mode_of(url@),
{
    let u = chars_of(url);
    if !contains_chars(&u, &chars_of("flipkart.com")) {
        None
    } else if contains_chars(&u, &chars_of("/p/")) {
        Some(Mode::SinglePage)
    } else if contains_chars(&u, &chars_of("/product-reviews/")) {
        Some(Mode::MultiPage)
    } else {
        None
    }
}

/// The link of one page of a review listing.
pub fn page_link(base: &str, page: u64) -> (r: String)
    ensures
        r@ == page_link_spec(base@, page as nat),
{
    let mut r = String::from_str(base);
    r.append("&page=");
    push_decimal(&mut r, page);
    r
}

/// What the crawl asks for next.
pub enum Step {
    /// Fetch the document at this link and report the reviews found on it.
    Fetch(String),
    /// The crawl is over; the corpus is complete.
    Finished,
}

/// The state of a crawl: the decisions of the page loop, apart from the
/// fetching itself.
pub struct Crawl {
    mode: Mode,
    base: String,
    page: u64,
    corpus: Vec<ReviewRecord>,
    finished: bool,
}

/// What a crawl holds, as plain values.
pub struct CrawlView {
    pub mode: Mode,
    pub base: Seq<char>,
    pub page: nat,
    pub corpus: Seq<ReviewView>,
    pub finished: bool,
}

impl View for Crawl {
    type V = CrawlView;

    closed spec fn view(&self) -> CrawlView {
        CrawlView {
            mode: self.mode,
            base: self.base@,
            page: self.page as nat,
            corpus: views(self.corpus@),
            finished: self.finished,
        }
    }
}

/// The link that a crawl in state `c` fetches: the base link itself in
/// single-page mode, the link of the current page otherwise.
pub open spec fn fetch_link(c: CrawlView) -> Seq<char> {
    match c.mode {
        Mode::SinglePage => c.base,
        Mode::MultiPage => page_link_spec(c.base, c.page),
    }
}

/// The state of a crawl after the reviews `found` on the page it fetched.
/// A single page ends the crawl. In a listing a page without reviews ends it
/// and adds nothing; a page with reviews adds them in order and moves on to
/// the next page, or ends the crawl if there is no next page number.
pub open spec fn after_page(c: CrawlView, found: Seq<ReviewView>) -> CrawlView {
    match c.mode {
        Mode::SinglePage => CrawlView { corpus: c.corpus + found, finished: true, ..c },
        Mode::MultiPage => if found.len() == 0 {
            CrawlView { finished: true, ..c }
        } else if c.page < u64::MAX {
            CrawlView { corpus: c.corpus + found, page: c.page + 1, ..c }
        } else {
            CrawlView { corpus: c.corpus + found, finished: true, ..c }
        },
    }
}

impl Crawl {
    /// A crawl of `base` in `mode`, about to fetch its first page.
    pub fn new(base: &str, mode: Mode) -> (r: Crawl)
        ensures
            r@ == (CrawlView {
                mode,
                base: base@,
                page: 1,
                corpus: Seq::empty(),
                finished: false,
            }),
    {
        let r = Crawl { mode, base: String::from_str(base), page: 1, corpus: Vec::new(), finished: false };
        assert(views(r.corpus@) =~= Seq::empty());
        r
    }

    /// A crawl of `url` in the mode that the link asks for, or `None` when
    /// the link is not one to crawl.
    pub fn start(url: &str) -> (r: Option<Crawl>)
        ensures
            r is None <==> mode_of(url@) is None,
            r matches Some(c) ==> c@ == (CrawlView {
                mode: mode_of(url@)->Some_0,
                base: url@,
                page: 1,
                corpus: Seq::empty(),
                finished: false,
            }),
    {
        match detect_mode(url) {
            Some(mode) => Some(Crawl::new(url, mode)),
            None => None,
        }
    }

    /// The next thing to do: fetch the current page, or stop.
    pub fn next_step(&self) -> (r: Step)
        ensures
            self@.finished ==> r is Finished,
            !self@.finished ==> (r matches Step::Fetch(link) && link@ == fetch_link(self@)),
    {
        if self.finished {
            Step::Finished
        } else {
            match self.mode {
                Mode::SinglePage => Step::Fetch(self.base.clone()),
                Mode::MultiPage => Step::Fetch(page_link(self.base.as_str(), self.page)),
            }
        }
    }

    /// Takes in the records built from the page just fetched, in document
    /// order.
    pub fn page_received(&mut self, found: Vec<ReviewRecord>)
        requires
            !old(self)@.finished,
        ensures
            final(self)@ == after_page(old(self)@, views(found@)),
    {
        let mut found = found;
        let ghost added = views(found@);
        let ghost before = views(self.corpus@);
        match self.mode {
            Mode::SinglePage => {
                self.corpus.append(&mut found);
                self.finished = true;
            },
            Mode::MultiPage => {
                if found.len() == 0 {
                    self.finished = true;
                } else {
                    self.corpus.append(&mut found);
                    if self.page < u64::MAX {
                        self.page = self.page + 1;
                    } else {
                        self.finished = true;
                    }
                }
            },
        }
        proof {
            if self.corpus@.len() != before.len() {
                assert(views(self.corpus@) =~= before + added);
            } else {
                assert(views(self.corpus@) =~= before);
            }
            if self.mode == Mode::SinglePage {
                assert(views(self.corpus@) =~= before + added);
            }
            if added.len() == 0 {
                assert(before + added =~= before);
            }
        }
    }

    pub fn is_finished(&self) -> (r: bool)
        ensures
            r == self@.finished,
    {
        self.finished
    }

    pub fn mode(&self) -> (r: Mode)
        ensures
            r == self@.mode,
    {
        self.mode
    }

    pub fn page(&self) -> (r: u64)
        ensures
            r as nat == self@.page,
    {
        self.page
    }

    /// The records gathered so far, in page order and, within a page, in
    /// document order.
    pub fn corpus(&self) -> (r: &Vec<ReviewRecord>)
        ensures
            views(r@) == self@.corpus,
    {
        &self.corpus
    }

    /// The gathered records, ending the crawl.
    pub fn into_corpus(self) -> (r: Vec<ReviewRecord>)
        ensures
            views(r@) == self@.corpus,
    {
        self.corpus
    }
}

} // verus!

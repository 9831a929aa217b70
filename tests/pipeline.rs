use review_sentiment::crawl::{detect_mode, page_link, Crawl, Mode, Step};
use review_sentiment::extract::{extract_reviews, has_more_reviews, normalize_all};
use review_sentiment::format::score_text;
use review_sentiment::record::{aggregate, summarize, ReviewRecord};
use review_sentiment::sentiment::{classify, Sentiment, SCORE_SCALE};
use review_sentiment::table::{csv_table, table_row};
use review_sentiment::text::normalize;

fn record(text: &str, score: i64) -> ReviewRecord {
    ReviewRecord::new(text.to_string(), score)
}

fn page_html(texts: &[&str]) -> String {
    let mut html = String::from("<html><body>");
    for t in texts {
        html.push_str("<div class=\"ZmyHeo\"><div><div>");
        html.push_str(t);
        html.push_str("</div></div></div>");
    }
    html.push_str("</body></html>");
    html
}

#[test]
fn classify_boundaries() {
    assert_eq!(classify(50_000_000), Sentiment::Positive);
    assert_eq!(classify(-50_000_000), Sentiment::Negative);
    assert_eq!(classify(0), Sentiment::Neutral);
    assert_eq!(classify(49_999_999), Sentiment::Neutral);
    assert_eq!(classify(-49_999_999), Sentiment::Neutral);
    assert_eq!(classify(SCORE_SCALE), Sentiment::Positive);
    assert_eq!(classify(-SCORE_SCALE), Sentiment::Negative);
}

#[test]
fn sentiment_labels() {
    assert_eq!(Sentiment::Positive.label(), "Positive");
    assert_eq!(Sentiment::Negative.label(), "Negative");
    assert_eq!(Sentiment::Neutral.label(), "Neutral");
}

#[test]
fn normalize_collapses_whitespace_and_breaks() {
    assert_eq!(normalize("a   b\n\nc<br>d"), "a b c d");
    assert_eq!(normalize("a <br> b"), "a b");
    assert_eq!(normalize("  \t<br>lead and trail<br> \n"), "lead and trail");
}

#[test]
fn normalize_strips_quotes() {
    assert_eq!(normalize("He said \"great\""), "He said great");
    assert_eq!(normalize("a \" b"), "a b");
    assert_eq!(normalize("<b\"r>x"), "x");
    assert!(!normalize("\"\"q\"").contains('"'));
}

#[test]
fn normalize_edge_cases() {
    assert_eq!(normalize(""), "");
    assert_eq!(normalize("   \n<br>"), "");
    assert_eq!(normalize("<<br>br>"), "< br>");
    assert_eq!(normalize("plain"), "plain");
}

#[test]
fn normalize_idempotent_samples() {
    for s in ["a   b\n\nc<br>d", " x \" ", "<<br>br>", "\u{a0}y\u{3000}z ", "", "a<br"] {
        let once = normalize(s);
        assert_eq!(normalize(&once), once);
    }
}

#[test]
fn record_takes_class_of_score() {
    let r = record("ok", 800_000_000);
    assert_eq!(r.text(), "ok");
    assert_eq!(r.score(), 800_000_000);
    assert_eq!(r.sentiment(), Sentiment::Positive);
    assert_eq!(record("meh", 10).sentiment(), Sentiment::Neutral);
}

#[test]
fn aggregate_counts_and_average() {
    let corpus = vec![
        record("a", 800_000_000),
        record("b", -600_000_000),
        record("c", 0),
        record("d", 50_000_000),
    ];
    let r = aggregate(&corpus);
    assert_eq!(r.total, 4);
    assert_eq!(r.positive_count, 2);
    assert_eq!(r.negative_count, 1);
    assert_eq!(r.neutral_count, 1);
    assert_eq!(r.positive_count + r.negative_count + r.neutral_count, r.total);
    assert_eq!(r.average_score, 62_500_000);
    assert_eq!(r.average_sentiment, Sentiment::Positive);
}

#[test]
fn aggregate_average_rounds_toward_zero() {
    let corpus = vec![record("a", -1), record("b", -1), record("c", 1)];
    let r = aggregate(&corpus);
    assert_eq!(r.average_score, 0);
    assert_eq!(r.average_sentiment, Sentiment::Neutral);
    let neg = vec![record("a", -100_000_000), record("b", -1)];
    assert_eq!(aggregate(&neg).average_score, -50_000_000);
    assert_eq!(aggregate(&neg).average_sentiment, Sentiment::Negative);
}

#[test]
fn summarize_empty_corpus_has_no_report() {
    assert_eq!(summarize(&Vec::new()), None);
    let corpus = vec![record("a", 800_000_000)];
    assert_eq!(summarize(&corpus), Some(aggregate(&corpus)));
}

#[test]
fn score_text_values() {
    assert_eq!(score_text(0), "0");
    assert_eq!(score_text(SCORE_SCALE), "1");
    assert_eq!(score_text(-SCORE_SCALE), "-1");
    assert_eq!(score_text(800_000_000), "0.8");
    assert_eq!(score_text(-600_000_000), "-0.6");
    assert_eq!(score_text(-50_000_000), "-0.05");
    assert_eq!(score_text(123), "0.000000123");
    assert_eq!(score_text(658_823_529), "0.658823529");
}

#[test]
fn mode_detection() {
    assert_eq!(detect_mode("https://www.flipkart.com/phone/p/itm123?pid=X"), Some(Mode::SinglePage));
    assert_eq!(
        detect_mode("https://www.flipkart.com/phone/product-reviews/itm123?pid=X"),
        Some(Mode::MultiPage)
    );
    assert_eq!(detect_mode("https://www.example.com/phone/p/itm123"), None);
    assert_eq!(detect_mode("https://www.flipkart.com/search?q=phone"), None);
    assert_eq!(detect_mode(""), None);
}

#[test]
fn page_links() {
    assert_eq!(page_link("https://x.flipkart.com/r?pid=1", 1), "https://x.flipkart.com/r?pid=1&page=1");
    assert_eq!(page_link("b", 120), "b&page=120");
    assert_eq!(page_link("", 0), "&page=0");
}

#[test]
fn multi_page_crawl_stops_at_empty_page() {
    let base = "https://www.flipkart.com/phone/product-reviews/itm1?pid=P";
    let mut crawl = Crawl::start(base).unwrap();
    assert_eq!(crawl.mode(), Mode::MultiPage);
    let pages: Vec<Vec<(&str, i64)>> = vec![
        vec![("p1a", 800_000_000), ("p1b", -600_000_000), ("p1c", 0)],
        vec![("p2a", 100_000_000), ("p2b", -100_000_000)],
        vec![],
    ];
    let mut fetched = Vec::new();
    let mut next_page = 0;
    loop {
        match crawl.next_step() {
            Step::Fetch(link) => {
                fetched.push(link);
                let found = pages[next_page].iter().map(|(t, s)| record(t, *s)).collect();
                next_page += 1;
                crawl.page_received(found);
            }
            Step::Finished => break,
        }
    }
    assert_eq!(
        fetched,
        vec![format!("{}&page=1", base), format!("{}&page=2", base), format!("{}&page=3", base)]
    );
    let texts: Vec<String> = crawl.corpus().iter().map(|r| r.text().clone()).collect();
    assert_eq!(texts, vec!["p1a", "p1b", "p1c", "p2a", "p2b"]);
    assert_eq!(crawl.page(), 3);
    assert_eq!(crawl.into_corpus().len(), 5);
}

#[test]
fn single_page_without_reviews_gives_empty_corpus() {
    let url = "https://www.flipkart.com/phone/p/itm1?pid=P";
    let mut crawl = Crawl::start(url).unwrap();
    let link = match crawl.next_step() {
        Step::Fetch(link) => link,
        Step::Finished => panic!("the crawl should fetch its page"),
    };
    assert_eq!(link, url);
    let found = extract_reviews("<html><body><p>nothing here</p></body></html>").unwrap();
    assert!(found.is_empty());
    crawl.page_received(Vec::new());
    assert!(crawl.is_finished());
    assert!(matches!(crawl.next_step(), Step::Finished));
    let corpus = crawl.into_corpus();
    assert!(corpus.is_empty());
    assert_eq!(summarize(&corpus), None);
}

#[test]
fn single_page_fetches_once() {
    let mut crawl = Crawl::new("https://www.flipkart.com/a/p/b", Mode::SinglePage);
    crawl.page_received(vec![record("one", 1)]);
    assert!(crawl.is_finished());
    assert_eq!(crawl.corpus().len(), 1);
}

#[test]
fn start_rejects_other_links() {
    assert!(Crawl::start("https://shop.example.org/p/1").is_none());
}

#[test]
fn extraction_normalizes_in_document_order() {
    let html = page_html(&["  First\n\nreview ", "Says \"wow\"<span> and</span> more"]);
    let found = extract_reviews(&html).unwrap();
    assert_eq!(found, vec!["First review", "Says wow and more"]);
}

#[test]
fn more_reviews_marker() {
    let with = "<html><body><div class=\"_23J90q RcXBOT\">All reviews</div></body></html>";
    assert_eq!(has_more_reviews(with), Some(true));
    assert_eq!(has_more_reviews(&page_html(&["x"])), Some(false));
}

#[test]
fn end_to_end_two_reviews() {
    let html = page_html(&["Great product!!", "Terrible, broke in a day"]);
    let texts = extract_reviews(&html).unwrap();
    assert_eq!(texts, vec!["Great product!!", "Terrible, broke in a day"]);
    let scores = [800_000_000, -600_000_000];
    let corpus: Vec<ReviewRecord> =
        texts.into_iter().zip(scores).map(|(t, s)| ReviewRecord::new(t, s)).collect();
    assert_eq!(corpus[0].sentiment(), Sentiment::Positive);
    assert_eq!(corpus[1].sentiment(), Sentiment::Negative);
    let table = String::from_utf8(csv_table(&corpus).unwrap()).unwrap();
    assert_eq!(
        table,
        "Review,Score,Sentiment\nGreat product!!,0.8,Positive\n\"Terrible, broke in a day\",-0.6,Negative\n"
    );
    let report = aggregate(&corpus);
    assert_eq!(score_text(report.average_score), "0.1");
    assert_eq!(report.average_sentiment, Sentiment::Positive);
}

#[test]
fn table_of_empty_corpus_is_header_only() {
    let table = String::from_utf8(csv_table(&Vec::new()).unwrap()).unwrap();
    assert_eq!(table, "Review,Score,Sentiment\n");
}

#[test]
fn normalize_all_keeps_order_and_empties() {
    let raw = vec!["  b\t<br>a ".to_string(), "\"\"".to_string(), "c".to_string()];
    assert_eq!(normalize_all(&raw), vec!["b a", "", "c"]);
    assert!(normalize_all(&Vec::new()).is_empty());
}

#[test]
fn table_row_fields() {
    assert_eq!(table_row(&record("fine", -50_000_000)), vec!["fine", "-0.05", "Negative"]);
    assert_eq!(table_row(&record("", 0)), vec!["", "0", "Neutral"]);
}

#[test]
fn record_normalizes_its_text() {
    let r = record("  \"Nice\"<br>\n phone ", 600_000_000);
    assert_eq!(r.text(), "Nice phone");
    assert_eq!(record("already clean", 0).text(), "already clean");
}

#[test]
fn normalize_unicode_white_space() {
    assert_eq!(normalize("a\u{a0}\u{3000}b\u{2028}c\u{85}"), "a b c");
    assert_eq!(normalize("a\u{200b}b"), "a\u{200b}b");
}

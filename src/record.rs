use vstd::prelude::*;
use crate::text::{normalize, normalize_spec};
use crate::sentiment::{classify, classify_spec, Sentiment, POLARITY_THRESHOLD, SCORE_SCALE};

verus! {

/// One scored review: its canonical text, its fixed-point compound score and
/// the class of that score.
pub struct ReviewRecord {
    text: String,
    score: i64,
    sentiment: Sentiment,
}

/// What a review record holds, as plain values.
pub struct ReviewView {
    pub text: Seq<char>,
    pub score: int,
    pub sentiment: Sentiment,
}

impl View for ReviewRecord {
    type V = ReviewView;

    closed spec fn view(&self) -> ReviewView {
        ReviewView { text: self.text@, score: self.score as int, sentiment: self.sentiment }
    }
}

impl ReviewRecord {
    #[verifier::type_invariant]
    spec fn consistent(&self) -> bool {
        -SCORE_SCALE <= self.score <= SCORE_SCALE && self.sentiment == classify_spec(
            self.score as int,
        )
    }

    /// Builds the record of a review: its text is normalized, the score is
    /// the one the oracle gave that normalized text, and the class follows
    /// from the score. Text that is already normalized is kept as it is.
    pub fn new(text: String, score: i64) -> (r: ReviewRecord)
        requires
            -SCORE_SCALE <= score <= SCORE_SCALE,
        ensures
            r@ == (ReviewView {
                text: normalize_spec(text@),
                score: score as int,
                sentiment: classify_spec(score as int),
            }),
    {
        let text = normalize(text.as_str());
        let sentiment = classify(score);
        ReviewRecord { text, score, sentiment }
    }

    pub fn text(&self) -> (r: &String)
        ensures
            r@ == self@.text,
    {
        &self.text
    }

    /// The score, which lies in the oracle's range.
    pub fn score(&self) -> (r: i64)
        ensures
            r as int == self@.score,
            -SCORE_SCALE <= r <= SCORE_SCALE,
    {
        proof {
            use_type_invariant(self);
        }
        self.score
    }

    /// The class, which is always that of the score.
    pub fn sentiment(&self) -> (r: Sentiment)
        ensures
            r == self@.sentiment,
            r == classify_spec(self@.score),
    {
        proof {
            use_type_invariant(self);
        }
        self.sentiment
    }
}

/// The views of a sequence of records.
pub open spec fn views(rs: Seq<ReviewRecord>) -> Seq<ReviewView> {
    rs.map_values(|r: ReviewRecord| r@)
}

/// How many reviews of `rs` have class `c`.
pub open spec fn count_class(rs: Seq<ReviewView>, c: Sentiment) -> nat
    decreases rs.len(),
{
    if rs.len() == 0 {
        0
    } else {
        count_class(rs.drop_last(), c) + if rs.last().sentiment == c {
            1nat
        } else {
            0nat
        }
    }
}

/// The sum of the scores of `rs`.
pub open spec fn score_sum(rs: Seq<ReviewView>) -> int
    decreases rs.len(),
{
    if rs.len() == 0 {
        0
    } else {
        score_sum(rs.drop_last()) + rs.last().score
    }
}

/// `a / b` rounded toward zero.
pub open spec fn div_toward_zero(a: int, b: int) -> int {
    if a >= 0 {
        a / b
    } else {
        -((-a) / b)
    }
}

/// Summary statistics of a corpus.
#[derive(Clone, Copy, Debug, PartialEq, Eq, Structural)]
pub struct AggregateReport {
    pub total: usize,
    pub positive_count: usize,
    pub negative_count: usize,
    pub neutral_count: usize,
    /// The mean score, rounded toward zero to a whole unit.
    pub average_score: i64,
    pub average_sentiment: Sentiment,
}

/// The report of a non-empty corpus.
pub open spec fn aggregate_spec(rs: Seq<ReviewView>) -> AggregateReport {
    let avg = div_toward_zero(score_sum(rs), rs.len() as int);
    AggregateReport {
        total: rs.len() as usize,
        positive_count: count_class(rs, Sentiment::Positive) as usize,
        negative_count: count_class(rs, Sentiment::Negative) as usize,
        neutral_count: count_class(rs, Sentiment::Neutral) as usize,
        average_score: avg as i64,
        average_sentiment: classify_spec(avg),
    }
}

/// Rounding the mean toward zero never changes its class: the rounded mean
/// of a total `sum` over `n` reviews is positive exactly when the exact mean
/// reaches the threshold, and negative exactly when it reaches its negation.
pub proof fn lemma_rounded_mean_class(sum: int, n: int)
    requires
        n > 0,
    ensures
        classify_spec(div_toward_zero(sum, n)) == Sentiment::Positive <==> sum >= POLARITY_THRESHOLD
            * n,
        classify_spec(div_toward_zero(sum, n)) == Sentiment::Negative <==> sum <= -(
        POLARITY_THRESHOLD * n),
{
    let t = POLARITY_THRESHOLD as int;
    if sum >= 0 {
        assert(sum / n >= t <==> sum >= t * n) by (nonlinear_arith)
            requires
                n > 0,
                sum >= 0,
                t > 0,
        ;
        assert(sum / n >= 0) by (nonlinear_arith)
            requires
                n > 0,
                sum >= 0,
        ;
    } else {
        let m = -sum;
        assert(m / n >= t <==> m >= t * n) by (nonlinear_arith)
            requires
                n > 0,
                m > 0,
                t > 0,
        ;
        assert(m / n >= 0) by (nonlinear_arith)
            requires
                n > 0,
                m > 0,
        ;
    }
}

/// Tallies a non-empty corpus in one pass: the count of each class, the mean
/// score and its class. An empty corpus has no mean and is not accepted.
pub fn aggregate(corpus: &Vec<ReviewRecord>) -> (r: AggregateReport)
    requires
        corpus@.len() > 0,
    ensures
        r == aggregate_spec(views(corpus@)),
        r.total == corpus@.len(),
        r.positive_count + r.negative_count + r.neutral_count == r.total,
        -SCORE_SCALE <= r.average_score <= SCORE_SCALE,
        r.average_sentiment == classify_spec(r.average_score as int),
        r.average_sentiment == Sentiment::Positive <==> score_sum(views(corpus@))
            >= POLARITY_THRESHOLD * corpus@.len(),
        r.average_sentiment == Sentiment::Negative <==> score_sum(views(corpus@)) <= -(
        POLARITY_THRESHOLD * corpus@.len()),
{
    let ghost vs = views(corpus@);
    let n = corpus.len();
    let mut pos: usize = 0;
    let mut neg: usize = 0;
    let mut neu: usize = 0;
    let mut sum: i128 = 0;
    let mut i: usize = 0;
    while i < n
        invariant
            n == corpus@.len(),
            vs == views(corpus@),
            i <= n,
            pos == count_class(vs.take(i as int), Sentiment::Positive),
            neg == count_class(vs.take(i as int), Sentiment::Negative),
            neu == count_class(vs.take(i as int), Sentiment::Neutral),
            pos + neg + neu == i,
            sum == score_sum(vs.take(i as int)),
            -(i * SCORE_SCALE) <= sum <= i * SCORE_SCALE,
        decreases n - i,
    {
        let r = &corpus[i];
        proof {
            use_type_invariant(r);
            assert(vs.take(i + 1).drop_last() =~= vs.take(i as int));
            assert(vs.take(i + 1).last() == r@);
        }
        match r.sentiment {
            Sentiment::Positive => pos += 1,
            Sentiment::Negative => neg += 1,
            Sentiment::Neutral => neu += 1,
        }
        sum = sum + r.score as i128;
        assert(-((i + 1) * SCORE_SCALE) <= sum <= (i + 1) * SCORE_SCALE) by (nonlinear_arith)
            requires
                -(i * SCORE_SCALE) <= sum - r.score <= i * SCORE_SCALE,
                -SCORE_SCALE <= r.score <= SCORE_SCALE,
        ;
        i += 1;
    }
    assert(vs.take(n as int) =~= vs);
    let nn = n as i128;
    let avg: i128 = if sum >= 0 {
        sum / nn
    } else {
        -((-sum) / nn)
    };
    proof {
        let s = sum as int;
        let k = n as int;
        lemma_rounded_mean_class(s, k);
        if s >= 0 {
            assert(s / k <= SCORE_SCALE) by (nonlinear_arith)
                requires
                    0 <= s <= k * SCORE_SCALE,
                    k > 0,
            ;
            assert(s / k >= 0) by (nonlinear_arith)
                requires
                    0 <= s,
                    k > 0,
            ;
        } else {
            assert((-s) / k <= SCORE_SCALE) by (nonlinear_arith)
                requires
                    0 <= -s <= k * SCORE_SCALE,
                    k > 0,
            ;
            assert((-s) / k >= 0) by (nonlinear_arith)
                requires
                    0 <= -s,
                    k > 0,
            ;
        }
    }
    let average_score = avg as i64;
    AggregateReport {
        total: n,
        positive_count: pos,
        negative_count: neg,
        neutral_count: neu,
        average_score,
        average_sentiment: classify(average_score),
    }
}

/// The report of a corpus, or `None` when the corpus is empty and there is
/// nothing to report.
pub fn summarize(corpus: &Vec<ReviewRecord>) -> (r: Option<AggregateReport>)
    ensures
        r is None <==> corpus@.len() == 0,
        r matches Some(a) ==> a == aggregate_spec(views(corpus@)),
{
    if corpus.len() == 0 {
        None
    } else {
        Some(aggregate(corpus))
    }
}

} // verus!

use vstd::prelude::*;

verus! {

/// Scores are fixed-point numbers: `SCORE_SCALE` units make a polarity of 1.
pub const SCORE_SCALE: i64 = 1_000_000_000;

/// A score at or above this many units is positive; at or below its negation, negative.
pub const POLARITY_THRESHOLD: i64 = 50_000_000;

/// The three classes of sentiment.
#[derive(Clone, Copy, Debug, PartialEq, Eq, Structural)]
pub enum Sentiment {
    Positive,
    Negative,
    Neutral,
}

/// The class of a score: positive from the threshold up, negative from its
/// negation down, neutral strictly between.
pub open spec fn classify_spec(score: int) -> Sentiment {
    if score >= POLARITY_THRESHOLD {
        Sentiment::Positive
    } else if score <= -POLARITY_THRESHOLD {
        Sentiment::Negative
    } else {
        Sentiment::Neutral
    }
}

/// Classifies a fixed-point compound score.
pub fn classify(score: i64) -> (r: Sentiment)
    ensures
        r == classify_spec(score as int),
        r == Sentiment::Positive <==> score >= POLARITY_THRESHOLD,
        r == Sentiment::Negative <==> score <= -POLARITY_THRESHOLD,
        r == Sentiment::Neutral <==> (-POLARITY_THRESHOLD < score && score < POLARITY_THRESHOLD),
{
    if score >= POLARITY_THRESHOLD {
        Sentiment::Positive
    } else if score <= -POLARITY_THRESHOLD {
        Sentiment::Negative
    } else {
        Sentiment::Neutral
    }
}

/// The label of a class as it appears in reports and tables.
pub open spec fn label_spec(s: Sentiment) -> Seq<char> {
    match s {
        Sentiment::Positive => seq!['P', 'o', 's', 'i', 't', 'i', 'v', 'e'],
        Sentiment::Negative => seq!['N', 'e', 'g', 'a', 't', 'i', 'v', 'e'],
        Sentiment::Neutral => seq!['N', 'e', 'u', 't', 'r', 'a', 'l'],
    }
}

impl Sentiment {
    /// The label of this class: "Positive", "Negative" or "Neutral".
    pub fn label(&self) -> (r: String)
        ensures
            r@ == label_spec(*self),
    {
        let r = match self {
            Sentiment::Positive => String::from_str("Positive"),
            Sentiment::Negative => String::from_str("Negative"),
            Sentiment::Neutral => String::from_str("Neutral"),
        };
        proof {
            reveal_strlit("Positive");
            reveal_strlit("Negative");
            reveal_strlit("Neutral");
        }
        assert(r@ =~= label_spec(*self));
        r
    }
}

} // verus!

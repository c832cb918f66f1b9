//! Verified rendering of the service's texts: the decimal form of a
//! probability held in millionths, the JSON body of a successful
//! prediction, and the startup diagnostic for a missing checkpoint.

use vstd::prelude::*;

use crate::classify::{ClassLabel, ProbabilityPair};
use crate::config::MICROS_PER_UNIT;

verus! {

/// The decimal digit character for a value in 0..=9.
pub open spec fn digit_char(d: int) -> char {
    if d == 0 {
        '0'
    } else if d == 1 {
        '1'
    } else if d == 2 {
        '2'
    } else if d == 3 {
        '3'
    } else if d == 4 {
        '4'
    } else if d == 5 {
        '5'
    } else if d == 6 {
        '6'
    } else if d == 7 {
        '7'
    } else if d == 8 {
        '8'
    } else {
        '9'
    }
}

/// The decimal rendering of a probability of `m` millionths, with one
/// integer digit and all six fractional digits: 250_000 renders as
/// "0.250000", one million as "1.000000".
pub open spec fn prob_chars(m: int) -> Seq<char> {
    seq![
        digit_char(m / 1_000_000),
        '.',
        digit_char((m / 100_000) % 10),
        digit_char((m / 10_000) % 10),
        digit_char((m / 1_000) % 10),
        digit_char((m / 100) % 10),
        digit_char((m / 10) % 10),
        digit_char(m % 10),
    ]
}

/// The single decimal digit as a string.
fn digit_str(d: u32) -> (r: &'static str)
    requires
        d < 10,
    ensures
        r@ == seq![digit_char(d as int)],
{
    proof {
        reveal_strlit("0");
        reveal_strlit("1");
        reveal_strlit("2");
        reveal_strlit("3");
        reveal_strlit("4");
        reveal_strlit("5");
        reveal_strlit("6");
        reveal_strlit("7");
        reveal_strlit("8");
        reveal_strlit("9");
    }
    let r = match d {
        0 => "0",
        1 => "1",
        2 => "2",
        3 => "3",
        4 => "4",
        5 => "5",
        6 => "6",
        7 => "7",
        8 => "8",
        _ => "9",
    };
    proof {
        assert(r@ =~= seq![digit_char(d as int)]);
    }
    r
}

/// Renders a probability of `m` millionths as its exact decimal form,
/// "0.000000" through "1.000000".
pub fn format_prob_micros(m: u32) -> (r: String)
    requires
        m <= MICROS_PER_UNIT,
    ensures
        r@ == prob_chars(m as int),
{
    proof {
        reveal_strlit(".");
    }
    let mut s = String::new();
    s.append(digit_str(m / 1_000_000));
    s.append(".");
    s.append(digit_str((m / 100_000) % 10));
    s.append(digit_str((m / 10_000) % 10));
    s.append(digit_str((m / 1_000) % 10));
    s.append(digit_str((m / 100) % 10));
    s.append(digit_str((m / 10) % 10));
    s.append(digit_str(m % 10));
    proof {
        assert(s@ =~= prob_chars(m as int));
    }
    s
}

/// The JSON body of a successful prediction: the class name and the two
/// probabilities in index order, each with six decimals.
pub open spec fn json_body_chars(class: ClassLabel, probs: ProbabilityPair) -> Seq<char> {
    "{\"class\":\""@ + class.spec_text() + "\",\"probabilities\":["@ + prob_chars(
        probs.p0_micros as int,
    ) + ","@ + prob_chars(probs.p1_micros as int) + "]}"@
}

/// Renders the JSON body of a successful prediction, exactly as
/// `json_body_chars` states it.
pub fn render_prediction_body(class: ClassLabel, probs: &ProbabilityPair) -> (r: String)
    requires
        probs.wf(),
    ensures
        r@ == json_body_chars(class, *probs),
{
    let mut s = String::new();
    s.append("{\"class\":\"");
    s.append(class.text());
    s.append("\",\"probabilities\":[");
    s.append(format_prob_micros(probs.p0_micros).as_str());
    s.append(",");
    s.append(format_prob_micros(probs.p1_micros).as_str());
    s.append("]}");
    proof {
        assert(s@ =~= json_body_chars(class, *probs));
    }
    s
}

/// The startup diagnostic for a missing model artifact: names the path
/// that was expected and says how to remedy it. The process must not
/// begin serving after printing it.
pub fn model_missing_message(path: &str) -> (r: String)
    ensures
        r@ == "Model checkpoint not found at "@ + path@
            + ". Train the model first, or point the service at an existing checkpoint file."@,
{
    let mut s = String::new();
    s.append("Model checkpoint not found at ");
    s.append(path);
    s.append(". Train the model first, or point the service at an existing checkpoint file.");
    proof {
        assert(s@ =~= "Model checkpoint not found at "@ + path@
            + ". Train the model first, or point the service at an existing checkpoint file."@);
    }
    s
}

} // verus!

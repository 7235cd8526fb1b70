//! Reading a prediction as a trade intent. Only one exact form is read; any
//! other text is not acted upon.
use vstd::prelude::*;

use crate::decimal::{decimal_text_units, is_amount, parse_decimal, Decimal};
use crate::order::{kind_named, parse_order_kind, parse_side, side_named, TradeIntent};

verus! {

/// The words of `s`, cut at every space. Two spaces in a row, or a space at
/// either end, give an empty word.
pub open spec fn words(s: Seq<char>) -> Seq<Seq<char>>
    decreases s.len(),
{
    if s.len() == 0 {
        seq![Seq::empty()]
    } else {
        let w = words(s.drop_last());
        if s.last() == ' ' {
            w.push(Seq::empty())
        } else {
            w.update(w.len() - 1, w.last().push(s.last()))
        }
    }
}

proof fn lemma_words_nonempty(s: Seq<char>)
    ensures
        words(s).len() >= 1,
    decreases s.len(),
{
    if s.len() > 0 {
        lemma_words_nonempty(s.drop_last());
    }
}

/// Splits `s` at every space.
pub fn split_words(s: &str) -> (r: Vec<String>)
    ensures
        r@.len() == words(s@).len(),
        forall|i: int| 0 <= i < r@.len() ==> #[trigger] r@[i]@ == words(s@)[i],
{
    let n = s.unicode_len();
    let mut done: Vec<String> = Vec::new();
    let mut start: usize = 0;
    let mut i: usize = 0;
    while i < n
        invariant
            n == s@.len(),
            start <= i <= n,
            words(s@.subrange(0, i as int)).len() == done@.len() + 1,
            forall|k: int| 0 <= k < done@.len() ==> #[trigger] done@[k]@ == words(
                s@.subrange(0, i as int),
            )[k],
            words(s@.subrange(0, i as int))[done@.len() as int] == s@.subrange(
                start as int,
                i as int,
            ),
        decreases n - i,
    {
        let ghost prev = s@.subrange(0, i as int);
        let ghost next = s@.subrange(0, i + 1);
        assert(next.drop_last() =~= prev);
        assert(next.last() == s@[i as int]);
        proof {
            lemma_words_nonempty(prev);
        }
        if s.get_char(i) == ' ' {
            let w = String::from_str(s.substring_char(start, i));
            done.push(w);
            start = i + 1;
            assert(s@.subrange(start as int, i + 1) =~= Seq::<char>::empty());
        } else {
            assert(s@.subrange(start as int, i + 1) =~= s@.subrange(start as int, i as int).push(
                s@[i as int],
            ));
        }
        i = i + 1;
    }
    assert(s@.subrange(0, n as int) =~= s@);
    let last = String::from_str(s.substring_char(start, n));
    done.push(last);
    done
}

/// The amount that an amount text denotes.
pub open spec fn amount_of(s: Seq<char>) -> Decimal {
    Decimal { units: decimal_text_units(s) as i64 }
}

/// The one form a prediction is read in:
/// `SIDE KIND SYMBOL QUANTITY [PRICE [STOP_PRICE]]`, single spaces between
/// words, side and kind by their exchange names, amounts as decimal texts.
pub open spec fn is_intent_text(w: Seq<Seq<char>>) -> bool {
    &&& 4 <= w.len() <= 6
    &&& side_named(w[0]) is Some
    &&& kind_named(w[1]) is Some
    &&& w[2].len() > 0
    &&& is_amount(w[3])
    &&& (w.len() >= 5 ==> is_amount(w[4]))
    &&& (w.len() == 6 ==> is_amount(w[5]))
}

pub open spec fn intent_hint_text() -> Seq<char> {
    "Answer with one line of the form SIDE KIND SYMBOL QUANTITY [PRICE [STOP_PRICE]], where SIDE is BUY or SELL and KIND is MARKET, LIMIT or STOP_LIMIT, amounts in plain decimals."@
}

/// The instruction that asks the prediction service for an answer in the
/// form that `parse_intent` reads.
pub fn intent_hint() -> (r: &'static str)
    ensures
        r@ == intent_hint_text(),
{
    "Answer with one line of the form SIDE KIND SYMBOL QUANTITY [PRICE [STOP_PRICE]], where SIDE is BUY or SELL and KIND is MARKET, LIMIT or STOP_LIMIT, amounts in plain decimals."
}

/// Reads a prediction as a trade intent, in the one form that
/// `is_intent_text` describes; `None` for any other text.
pub fn parse_intent(text: &str) -> (r: Option<TradeIntent>)
    ensures
        r is Some <==> is_intent_text(words(text@)),
        r matches Some(i) ==> {
            let w = words(text@);
            &&& i.side@ == w[0]
            &&& i.kind@ == w[1]
            &&& i.symbol@ == w[2]
            &&& i.quantity == amount_of(w[3])
            &&& i.price == (if w.len() >= 5 {
                Some(amount_of(w[4]))
            } else {
                None::<Decimal>
            })
            &&& i.stop_price == (if w.len() == 6 {
                Some(amount_of(w[5]))
            } else {
                None::<Decimal>
            })
        },
{
    let w = split_words(text);
    if w.len() < 4 || w.len() > 6 {
        return None;
    }
    if parse_side(w[0].as_str()).is_none() || parse_order_kind(w[1].as_str()).is_none()
        || w[2].unicode_len() == 0 {
        return None;
    }
    let quantity = match parse_decimal(w[3].as_str()) {
        Some(q) => q,
        None => {
            return None;
        },
    };
    let price = if w.len() >= 5 {
        match parse_decimal(w[4].as_str()) {
            Some(p) => Some(p),
            None => {
                return None;
            },
        }
    } else {
        None
    };
    let stop_price = if w.len() == 6 {
        match parse_decimal(w[5].as_str()) {
            Some(p) => Some(p),
            None => {
                return None;
            },
        }
    } else {
        None
    };
    Some(
        TradeIntent {
            side: w[0].clone(),
            kind: w[1].clone(),
            symbol: w[2].clone(),
            quantity,
            price,
            stop_price,
        },
    )
}

} // verus!

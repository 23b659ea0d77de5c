//! Control frames as the server reads them: a JSON object with the action
//! under `a` and its value under `v`.

use crate::ticker::{Action, ControlFrame, FrameModel};
use vstd::prelude::*;
use vstd::string::*;

verus! {

/// The decimal digit for `value`, which is below ten.
pub open spec fn digit_of(value: nat) -> char {
    if value == 0 {
        '0'
    } else if value == 1 {
        '1'
    } else if value == 2 {
        '2'
    } else if value == 3 {
        '3'
    } else if value == 4 {
        '4'
    } else if value == 5 {
        '5'
    } else if value == 6 {
        '6'
    } else if value == 7 {
        '7'
    } else if value == 8 {
        '8'
    } else {
        '9'
    }
}

/// A number in decimal, without leading zeros.
pub open spec fn decimal_of(value: nat) -> Seq<char>
    decreases value,
{
    if value < 10 {
        seq![digit_of(value)]
    } else {
        decimal_of(value / 10).push(digit_of(value % 10))
    }
}

/// Tokens in decimal, with a comma between one and the next.
pub open spec fn list_of(tokens: Seq<u32>) -> Seq<char>
    decreases tokens.len(),
{
    if tokens.len() == 0 {
        Seq::empty()
    } else if tokens.len() == 1 {
        decimal_of(tokens[0] as nat)
    } else {
        list_of(tokens.drop_last()) + ","@ + decimal_of(tokens.last() as nat)
    }
}

/// The text of a control frame.
///
/// For `subscribe` and `unsubscribe` the value is the array of the tokens.
/// For `mode` it is an array of two: the name of the mode, and the array of
/// the tokens.
pub open spec fn frame_text(frame: FrameModel) -> Seq<char> {
    match frame.action {
        Action::Subscribe => "{\"a\":\"subscribe\",\"v\":["@ + list_of(frame.tokens) + "]}"@,
        Action::Unsubscribe => "{\"a\":\"unsubscribe\",\"v\":["@ + list_of(frame.tokens) + "]}"@,
        Action::SetMode(mode) => "{\"a\":\"mode\",\"v\":[\""@ + mode.name() + "\",["@ + list_of(
            frame.tokens,
        ) + "]]}"@,
    }
}

/// The decimal digit for `value`.
fn digit(value: u32) -> (text: &'static str)
    requires
        value < 10,
    ensures
        text@ == seq![digit_of(value as nat)],
{
    proof {
        reveal_strlit("0");
        reveal_strlit("1");
        reveal_strlit("2");
        reveal_strlit("3");
        reveal_strlit("4");
        reveal_strlit("5");
        reveal_strlit("6");
        reveal_strlit("7");
        reveal_strlit("8");
        reveal_strlit("9");
    }
    let text = if value == 0 {
        "0"
    } else if value == 1 {
        "1"
    } else if value == 2 {
        "2"
    } else if value == 3 {
        "3"
    } else if value == 4 {
        "4"
    } else if value == 5 {
        "5"
    } else if value == 6 {
        "6"
    } else if value == 7 {
        "7"
    } else if value == 8 {
        "8"
    } else {
        "9"
    };
    assert(text@ =~= seq![digit_of(value as nat)]);
    text
}

/// Writes `value` in decimal at the end of `text`.
fn push_decimal(text: &mut String, value: u32)
    ensures
        final(text)@ == old(text)@ + decimal_of(value as nat),
    decreases value,
{
    if value >= 10 {
        push_decimal(text, value / 10);
    }
    text.append(digit(value % 10));
    assert(text@ =~= old(text)@ + decimal_of(value as nat));
}

/// Writes `tokens` at the end of `text`, with a comma between one and the
/// next.
fn push_list(text: &mut String, tokens: &Vec<u32>)
    ensures
        final(text)@ == old(text)@ + list_of(tokens@),
{
    let mut index: usize = 0;
    while index < tokens.len()
        invariant
            index <= tokens.len(),
            text@ == old(text)@ + list_of(tokens@.take(index as int)),
        decreases tokens.len() - index,
    {
        let ghost before = tokens@.take(index as int);
        let ghost after = tokens@.take(index + 1);
        proof {
            reveal_strlit(",");
            assert(after.drop_last() =~= before);
            assert(after.last() == tokens@[index as int]);
        }
        if index > 0 {
            text.append(",");
        }
        push_decimal(text, tokens[index]);
        assert(text@ =~= old(text)@ + list_of(after));
        index = index + 1;
    }
    assert(tokens@.take(index as int) =~= tokens@);
}

impl ControlFrame {
    /// The text of the frame, as it is written to the socket.
    pub fn to_json(&self) -> (text: String)
        ensures
            text@ == frame_text(self@),
    {
        match self.action {
            Action::Subscribe => {
                let mut text = String::from_str("{\"a\":\"subscribe\",\"v\":[");
                push_list(&mut text, &self.tokens);
                text.append("]}");
                text
            },
            Action::Unsubscribe => {
                let mut text = String::from_str("{\"a\":\"unsubscribe\",\"v\":[");
                push_list(&mut text, &self.tokens);
                text.append("]}");
                text
            },
            Action::SetMode(mode) => {
                let mut text = String::from_str("{\"a\":\"mode\",\"v\":[\"");
                text.append(mode.as_str());
                text.append("\",[");
                push_list(&mut text, &self.tokens);
                text.append("]]}");
                text
            },
        }
    }
}

} // verus!

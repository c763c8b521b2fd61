//! A text field that only holds a number: an optional leading sign and
//! decimal digits. Edits filter what is typed instead of rejecting it.
use vstd::prelude::*;
use vstd::string::StrSliceExecFns;

verus! {

pub open spec fn is_digit(c: char) -> bool {
    '0' <= c && c <= '9'
}

/// A character that may open a number: a sign or a digit.
pub open spec fn is_lead(c: char) -> bool {
    c == '+' || c == '-' || is_digit(c)
}

pub open spec fn byte_of(c: char) -> u8 {
    (c as u32) as u8
}

pub open spec fn is_sign_byte(b: u8) -> bool {
    b == 43 || b == 45
}

/// The digits of `s`, in order, as ASCII bytes; everything else dropped.
pub open spec fn digits_of(s: Seq<char>) -> Seq<u8>
    decreases s.len(),
{
    if s.len() == 0 {
        seq![]
    } else {
        digits_of(s.drop_last()) + if is_digit(s.last()) {
            seq![byte_of(s.last())]
        } else {
            seq![]
        }
    }
}

/// What is kept of a typed text: its first character if that is a sign or a
/// digit, then the digits of the rest.
pub open spec fn number_input_of(s: Seq<char>) -> Seq<u8> {
    if s.len() == 0 {
        seq![]
    } else {
        (if is_lead(s[0]) {
            seq![byte_of(s[0])]
        } else {
            seq![]
        }) + digits_of(s.drop_first())
    }
}

/// The contents after typing `text` at position `idx`, and how many
/// characters were inserted. Into an empty field the text goes as a whole
/// number. At the front, a typed number replaces a sign already there with
/// its last character. Elsewhere only digits go in.
pub open spec fn inserted(buf: Seq<u8>, text: Seq<char>, idx: int) -> (Seq<u8>, int) {
    if buf.len() == 0 {
        (number_input_of(text), number_input_of(text).len() as int)
    } else if idx == 0 {
        let b = number_input_of(text);
        if b.len() == 0 {
            (buf, 0)
        } else if is_sign_byte(buf[0]) {
            (b.drop_last() + buf.update(0, b.last()), b.len() - 1)
        } else {
            (b + buf, b.len() as int)
        }
    } else {
        let d = digits_of(text);
        (buf.subrange(0, idx) + d + buf.subrange(idx, buf.len() as int), d.len() as int)
    }
}

/// Appends the digits of `text[from..]` to `output`.
fn push_digits(output: &mut Vec<u8>, text: &str, from: usize)
    requires
        from <= text@.len(),
    ensures
        final(output)@ == old(output)@ + digits_of(text@.subrange(from as int, text@.len() as int)),
{
    let n = text.unicode_len();
    let mut i: usize = from;
    while i < n
        invariant
            from <= i <= n,
            n == text@.len(),
            output@ == old(output)@ + digits_of(text@.subrange(from as int, i as int)),
        decreases n - i,
    {
        let c = text.get_char(i);
        proof {
            let next = text@.subrange(from as int, i + 1);
            assert(next.drop_last() =~= text@.subrange(from as int, i as int));
            assert(next.last() == c);
        }
        if '0' <= c && c <= '9' {
            output.push((c as u32) as u8);
        }
        proof {
            assert(output@ =~= old(output)@ + digits_of(text@.subrange(from as int, i + 1)));
        }
        i = i + 1;
    }
}

/// Appends what is kept of `text` as a number to `ouput`.
pub fn input_number(ouput: &mut Vec<u8>, text: &str)
    ensures
        final(ouput)@ == old(ouput)@ + number_input_of(text@),
{
    if text.unicode_len() == 0 {
        assert(old(ouput)@ + number_input_of(text@) =~= old(ouput)@);
        return;
    }
    let first = text.get_char(0);
    let ghost start = ouput@;
    if first == '+' || first == '-' || ('0' <= first && first <= '9') {
        ouput.push((first as u32) as u8);
    }
    push_digits(ouput, text, 1);
    assert(text@.subrange(1, text@.len() as int) =~= text@.drop_first());
    assert(ouput@ =~= start + number_input_of(text@));
}

/// The contents of a number field, as ASCII bytes.
pub struct NumberText(Vec<u8>);

impl View for NumberText {
    type V = Seq<u8>;

    closed spec fn view(&self) -> Seq<u8> {
        self.0@
    }
}

impl NumberText {
    pub fn new() -> (r: NumberText)
        ensures
            r@.len() == 0,
    {
        NumberText(Vec::new())
    }

    pub fn as_bytes(&self) -> (r: &[u8])
        ensures
            r@ == self@,
    {
        self.0.as_slice()
    }

    pub fn len(&self) -> (r: usize)
        ensures
            r == self@.len(),
    {
        self.0.len()
    }

    /// Types `text` at character position `ch_idx`; returns how many
    /// characters went in.
    pub fn insert_text(&mut self, text: &str, ch_idx: usize) -> (r: usize)
        requires
            ch_idx <= old(self)@.len(),
        ensures
            (final(self)@, r as int) == inserted(old(self)@, text@, ch_idx as int),
    {
        if self.0.len() == 0 {
            self.replace(text);
            return self.0.len();
        }
        if ch_idx == 0 {
            let mut beginning: Vec<u8> = Vec::new();
            input_number(&mut beginning, text);
            assert(beginning@ =~= number_input_of(text@));
            if beginning.len() == 0 {
                return 0;
            }
            if self.0[0] == 43 || self.0[0] == 45 {
                match beginning.pop() {
                    Some(last) => {
                        self.0.set(0, last);
                    },
                    None => {},
                }
            }
            let count = beginning.len();
            beginning.append(&mut self.0);
            self.0 = beginning;
            count
        } else {
            let mut ending = self.0.split_off(ch_idx);
            let old_count = self.0.len();
            push_digits(&mut self.0, text, 0);
            assert(text@.subrange(0, text@.len() as int) =~= text@);
            let count = self.0.len() - old_count;
            self.0.append(&mut ending);
            count
        }
    }

    /// Removes the characters at positions `start` up to, not including, `end`.
    pub fn delete_char_range(&mut self, start: usize, end: usize)
        requires
            start <= end <= old(self)@.len(),
        ensures
            final(self)@ == old(self)@.subrange(0, start as int) + old(self)@.subrange(
                end as int,
                old(self)@.len() as int,
            ),
    {
        let mut removed = self.0.split_off(start);
        let mut rest = removed.split_off(end - start);
        self.0.append(&mut rest);
        assert(self.0@ =~= old(self)@.subrange(0, start as int) + old(self)@.subrange(
            end as int,
            old(self)@.len() as int,
        ));
    }

    pub fn clear(&mut self)
        ensures
            final(self)@.len() == 0,
    {
        self.0.clear();
    }

    /// Replaces the contents with what is kept of `text` as a number.
    pub fn replace(&mut self, text: &str)
        ensures
            final(self)@ == number_input_of(text@),
    {
        self.0.clear();
        input_number(&mut self.0, text);
        assert(self.0@ =~= number_input_of(text@));
    }

    /// Hands out the contents and leaves the field empty.
    pub fn take(&mut self) -> (r: Vec<u8>)
        ensures
            r@ == old(self)@,
            final(self)@.len() == 0,
    {
        self.0.split_off(0)
    }
}

/// The two fields of a temperature converter, in degrees Celsius and
/// Fahrenheit.
pub struct TemperatureConverterModel {
    pub celsius: NumberText,
    pub fahrenheit: NumberText,
}

impl TemperatureConverterModel {
    pub fn new() -> (r: TemperatureConverterModel)
        ensures
            r.celsius@.len() == 0,
            r.fahrenheit@.len() == 0,
    {
        TemperatureConverterModel { celsius: NumberText::new(), fahrenheit: NumberText::new() }
    }
}

} // verus!

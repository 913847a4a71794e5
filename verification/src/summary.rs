//! A user's record as text: one line that counts the warnings, then the
//! warnings, numbered from one.

use vstd::prelude::*;
use vstd::string::*;

use crate::record::{MemberView, UserWarnings};

verus! {

/// The character that shows the decimal digit `d`.
pub open spec fn digit(d: nat) -> char {
    if d == 0 {
        '0'
    } else if d == 1 {
        '1'
    } else if d == 2 {
        '2'
    } else if d == 3 {
        '3'
    } else if d == 4 {
        '4'
    } else if d == 5 {
        '5'
    } else if d == 6 {
        '6'
    } else if d == 7 {
        '7'
    } else if d == 8 {
        '8'
    } else {
        '9'
    }
}

/// `n` in decimal: its digits from the most significant, with no leading
/// zero, and `"0"` for zero.
pub open spec fn decimal(n: nat) -> Seq<char>
    decreases n,
{
    if n < 10 {
        seq![digit(n)]
    } else {
        decimal(n / 10).push(digit(n % 10))
    }
}

/// The line of the warning that stands at place `number`, counted from one.
pub open spec fn warning_line(number: nat, reason: Seq<char>) -> Seq<char> {
    decimal(number) + ": "@ + reason + "\n"@
}

/// The lines of `warnings`, first warning first.
pub open spec fn warning_lines(warnings: Seq<Seq<char>>) -> Seq<char>
    decreases warnings.len(),
{
    if warnings.len() == 0 {
        Seq::empty()
    } else {
        warning_lines(warnings.drop_last()) + warning_line(warnings.len(), warnings.last())
    }
}

/// The line that names the user and counts their warnings.
pub open spec fn summary_head(member: MemberView) -> Seq<char> {
    "User "@ + member.user.name + " has "@ + decimal(member.warning_count) + " warning(s)"@
}

/// The summary of a user's record: the head line and, where the count is not
/// zero, a colon, a line break and the lines of the warnings.
pub open spec fn format_summary(member: MemberView) -> Seq<char> {
    if member.warning_count > 0 {
        summary_head(member) + ":\n"@ + warning_lines(member.warnings)
    } else {
        summary_head(member)
    }
}

/// The text of one decimal digit.
fn digit_text(d: u64) -> (text: &'static str)
    requires
        d < 10,
    ensures
        text@ == seq![digit(d as nat)],
{
    proof {
        reveal_strlit("0");
        reveal_strlit("1");
        reveal_strlit("2");
        reveal_strlit("3");
        reveal_strlit("4");
        reveal_strlit("5");
        reveal_strlit("6");
        reveal_strlit("7");
        reveal_strlit("8");
        reveal_strlit("9");
    }
    let text = if d == 0 {
        "0"
    } else if d == 1 {
        "1"
    } else if d == 2 {
        "2"
    } else if d == 3 {
        "3"
    } else if d == 4 {
        "4"
    } else if d == 5 {
        "5"
    } else if d == 6 {
        "6"
    } else if d == 7 {
        "7"
    } else if d == 8 {
        "8"
    } else {
        "9"
    };
    assert(text@ =~= seq![digit(d as nat)]);
    text
}

/// Writes `n` in decimal at the end of `out`.
pub fn append_decimal(out: &mut String, n: u64)
    ensures
        final(out)@ == old(out)@ + decimal(n as nat),
    decreases n,
{
    if n >= 10 {
        append_decimal(out, n / 10);
    }
    out.append(digit_text(n % 10));
    assert(out@ =~= old(out)@ + decimal(n as nat));
}

impl UserWarnings {
    /// The summary of this record, as shown to whoever asked for it.
    pub fn to_string(&self) -> (text: String)
        ensures
            text@ == format_summary(self@),
    {
        let mut buffer = String::new();
        buffer.append("User ");
        buffer.append(self.user.name.as_str());
        buffer.append(" has ");
        append_decimal(&mut buffer, self.warning_count as u64);
        buffer.append(" warning(s)");
        assert(buffer@ =~= summary_head(self@));
        if self.warning_count > 0 {
            buffer.append(":\n");
            let mut i: usize = 0;
            assert(self@.warnings.take(0) =~= Seq::<Seq<char>>::empty());
            while i < self.warnings.len()
                invariant
                    i <= self.warnings.len(),
                    buffer@ == summary_head(self@) + ":\n"@ + warning_lines(
                        self@.warnings.take(i as int),
                    ),
                decreases self.warnings.len() - i,
            {
                let ghost before = buffer@;
                append_decimal(&mut buffer, (i + 1) as u64);
                buffer.append(": ");
                buffer.append(self.warnings[i].reason.as_str());
                buffer.append("\n");
                proof {
                    let done = self@.warnings.take(i + 1);
                    assert(done.drop_last() =~= self@.warnings.take(i as int));
                    assert(done.last() == self.warnings@[i as int]@);
                    assert(buffer@ =~= before + warning_line((i + 1) as nat, done.last()));
                    assert(buffer@ =~= summary_head(self@) + ":\n"@ + warning_lines(done));
                }
                i += 1;
            }
            assert(self@.warnings.take(i as int) =~= self@.warnings);
        }
        buffer
    }
}

} // verus!

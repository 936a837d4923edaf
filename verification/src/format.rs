use vstd::prelude::*;
use vstd::string::StringExecFns;

verus! {

/// The human-readable text for a whole number of seconds, such as "1h 2m 3s".
/// The text is a function of the seconds alone; `format_secs` produces it.
pub uninterp spec fn human_of(secs: u64) -> Seq<char>;

/// Relies on humantime::format_duration: the text depends on the duration alone.
#[verifier::external_body]
fn format_secs(secs: u64) -> (r: String)
    ensures
        r@ == human_of(secs),
{
    humantime::format_duration(std::time::Duration::from_secs(secs)).to_string()
}

/// What every printed line starts with: a carriage return in line mode
/// (so the update overwrites the previous one), nothing otherwise.
pub open spec fn spec_line_prefix(line_mode: bool) -> Seq<char> {
    if line_mode {
        seq!['\r']
    } else {
        Seq::<char>::empty()
    }
}

/// What an update line ends with: the line terminator padded to three
/// characters, so that in line mode stale trailing characters are blanked out.
pub open spec fn spec_line_suffix(line_mode: bool) -> Seq<char> {
    if line_mode {
        seq![' ', ' ', ' ']
    } else {
        seq![' ', ' ', '\n']
    }
}

/// One whole-second update line: prefix, the formatted time, padded terminator.
pub open spec fn spec_update_line(secs: u64, line_mode: bool) -> Seq<char> {
    spec_line_prefix(line_mode) + human_of(secs) + spec_line_suffix(line_mode)
}

/// The final notice once the countdown is over.
pub open spec fn spec_done_line(line_mode: bool) -> Seq<char> {
    spec_line_prefix(line_mode) + seq!['d', 'o', 'n', 'e', '\n']
}

/// Build the update line printed when `secs` whole seconds remain.
pub fn update_line(secs: u64, line_mode: bool) -> (r: String)
    ensures
        r@ == spec_update_line(secs, line_mode),
{
    let formatted = format_secs(secs);
    let mut line = String::new();
    if line_mode {
        line.append("\r");
        proof {
            reveal_strlit("\r");
            assert(line@ =~= spec_line_prefix(line_mode));
        }
    }
    line.append(formatted.as_str());
    if line_mode {
        line.append("   ");
        proof {
            reveal_strlit("   ");
        }
    } else {
        line.append("  \n");
        proof {
            reveal_strlit("  \n");
        }
    }
    proof {
        assert(line@ =~= spec_update_line(secs, line_mode));
    }
    line
}

/// Build the "done" notice line.
pub fn done_line(line_mode: bool) -> (r: String)
    ensures
        r@ == spec_done_line(line_mode),
{
    let mut line = String::new();
    if line_mode {
        line.append("\r");
        proof {
            reveal_strlit("\r");
        }
    }
    line.append("done\n");
    proof {
        reveal_strlit("done\n");
        assert(line@ =~= spec_done_line(line_mode));
    }
    line
}

} // verus!

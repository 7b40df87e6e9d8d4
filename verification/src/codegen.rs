//! Assembly of the generated pseudo-code for a fitted curve.
//!
//! The fitted forward and inverse curves are reported as a textual block of
//! five named constants and two piecewise formulas, ready to transcribe into
//! any target language. The numeric constants arrive here already formatted
//! as text (formatting a binary floating-point value is the caller's
//! concern); this module splices them into the fixed template and proves the
//! result is exactly the template around them.

use vstd::prelude::*;

verus! {

/// The generated pseudo-code block: the fixed template with the seven
/// formatted constants spliced in. `slope`, `line_y_offset`, `log_y_scale`,
/// `log_x_offset` and `log_y_offset` are the five named constants `A`..`E`;
/// `lin_max` is the forward branch threshold (the transition input) and
/// `log_lin_max` the inverse branch threshold (the transition output).
pub open spec fn code_text(
    slope: Seq<char>,
    line_y_offset: Seq<char>,
    log_y_scale: Seq<char>,
    log_x_offset: Seq<char>,
    log_y_offset: Seq<char>,
    lin_max: Seq<char>,
    log_lin_max: Seq<char>,
) -> Seq<char> {
    "\nA = "@ + slope + " (line slope)\nB = "@ + line_y_offset + " (line y offset)\nC = "@
        + log_y_scale + " (log y scale)\nD = "@ + log_x_offset + " (log x offset)\nE = "@
        + log_y_offset
        + " (log y offset)\n\nlinear_to_log(x) =\n    if x <= "@
        + lin_max
        + ":\n        A * x + B\n    else:\n        C * ln(x + D) + E\n\nlog_to_linear(x) =\n    if x <= "@
        + log_lin_max + ":\n        (x - B) / A\n    else:\n        e^((x - E) / C) - D\n"@
}

/// Emits the pseudo-code block for a fitted curve from its already
/// formatted constants.
pub fn generate_code(
    slope: &str,
    line_y_offset: &str,
    log_y_scale: &str,
    log_x_offset: &str,
    log_y_offset: &str,
    lin_max: &str,
    log_lin_max: &str,
) -> (r: String)
    ensures
        r@ == code_text(
            slope@,
            line_y_offset@,
            log_y_scale@,
            log_x_offset@,
            log_y_offset@,
            lin_max@,
            log_lin_max@,
        ),
{
    let mut out = String::new();
    out.append("\nA = ");
    out.append(slope);
    out.append(" (line slope)\nB = ");
    out.append(line_y_offset);
    out.append(" (line y offset)\nC = ");
    out.append(log_y_scale);
    out.append(" (log y scale)\nD = ");
    out.append(log_x_offset);
    out.append(" (log x offset)\nE = ");
    out.append(log_y_offset);
    out.append(" (log y offset)\n\nlinear_to_log(x) =\n    if x <= ");
    out.append(lin_max);
    out.append(":\n        A * x + B\n    else:\n        C * ln(x + D) + E\n\nlog_to_linear(x) =\n    if x <= ");
    out.append(log_lin_max);
    out.append(":\n        (x - B) / A\n    else:\n        e^((x - E) / C) - D\n");
    proof {
        assert(out@ =~= code_text(
            slope@,
            line_y_offset@,
            log_y_scale@,
            log_x_offset@,
            log_y_offset@,
            lin_max@,
            log_lin_max@,
        ));
    }
    out
}

} // verus!

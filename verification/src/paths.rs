//! The file paths the command writes to: the fixed output path of the
//! primary command inside the temporary directory, and the per-display
//! paths of the diagnostic routine, keyed by display identifier.

use vstd::prelude::*;

verus! {

/// The character for one decimal digit.
pub open spec fn spec_digit_char(d: int) -> char {
    if d == 0 {
        '0'
    } else if d == 1 {
        '1'
    } else if d == 2 {
        '2'
    } else if d == 3 {
        '3'
    } else if d == 4 {
        '4'
    } else if d == 5 {
        '5'
    } else if d == 6 {
        '6'
    } else if d == 7 {
        '7'
    } else if d == 8 {
        '8'
    } else {
        '9'
    }
}

/// The usual decimal rendering of a non-negative integer, most significant
/// digit first and without leading zeros (a lone zero for zero itself).
pub open spec fn spec_decimal(n: int) -> Seq<char>
    decreases n,
{
    if n < 10 {
        seq![spec_digit_char(n)]
    } else {
        spec_decimal(n / 10).push(spec_digit_char(n % 10))
    }
}

/// The one-character string for a decimal digit.
fn digit_str(d: u32) -> (s: &'static str)
    requires
        d < 10,
    ensures
        s@ == seq![spec_digit_char(d as int)],
{
    proof {
        reveal_strlit("0");
        reveal_strlit("1");
        reveal_strlit("2");
        reveal_strlit("3");
        reveal_strlit("4");
        reveal_strlit("5");
        reveal_strlit("6");
        reveal_strlit("7");
        reveal_strlit("8");
        reveal_strlit("9");
    }
    let s: &'static str = if d == 0 {
        "0"
    } else if d == 1 {
        "1"
    } else if d == 2 {
        "2"
    } else if d == 3 {
        "3"
    } else if d == 4 {
        "4"
    } else if d == 5 {
        "5"
    } else if d == 6 {
        "6"
    } else if d == 7 {
        "7"
    } else if d == 8 {
        "8"
    } else {
        "9"
    };
    proof {
        assert(s@ =~= seq![spec_digit_char(d as int)]);
    }
    s
}

/// Render a display identifier in decimal.
pub fn format_u32(n: u32) -> (s: String)
    ensures
        s@ == spec_decimal(n as int),
    decreases n,
{
    if n < 10 {
        digit_str(n).to_owned()
    } else {
        let mut s = format_u32(n / 10);
        s.append(digit_str(n % 10));
        proof {
            assert(s@ =~= spec_decimal((n / 10) as int).push(spec_digit_char((n % 10) as int)));
        }
        s
    }
}

/// Where the primary command writes its screenshot: the file
/// `screenshot.png` directly inside the given temporary directory.
pub open spec fn spec_output_path(temp_dir: Seq<char>) -> Seq<char> {
    if temp_dir.len() > 0 && temp_dir.last() == '/' {
        temp_dir + "screenshot.png"@
    } else {
        temp_dir + "/screenshot.png"@
    }
}

/// Build the primary command's output path from the temporary directory,
/// inserting a separator unless the directory already ends with one.
pub fn capture_output_path(temp_dir: &str) -> (p: String)
    ensures
        p@ == spec_output_path(temp_dir@),
{
    let n = temp_dir.unicode_len();
    let mut p = temp_dir.to_owned();
    if n > 0 && temp_dir.get_char(n - 1) == '/' {
        p.append("screenshot.png");
    } else {
        p.append("/screenshot.png");
    }
    p
}

/// Where the diagnostic routine writes a display's full frame.
pub open spec fn spec_full_frame_path(id: int) -> Seq<char> {
    "target/"@ + spec_decimal(id) + ".png"@
}

/// Where the diagnostic routine writes a display's region capture.
pub open spec fn spec_region_path(id: int) -> Seq<char> {
    "target/"@ + spec_decimal(id) + "-2.png"@
}

/// Build `target/<id>.png` for a display's full-frame capture.
pub fn full_frame_path(id: u32) -> (p: String)
    ensures
        p@ == spec_full_frame_path(id as int),
{
    let mut p = "target/".to_owned();
    p.append(format_u32(id).as_str());
    p.append(".png");
    p
}

/// Build `target/<id>-2.png` for a display's region capture.
pub fn region_path(id: u32) -> (p: String)
    ensures
        p@ == spec_region_path(id as int),
{
    let mut p = "target/".to_owned();
    p.append(format_u32(id).as_str());
    p.append("-2.png");
    p
}

/// Where the diagnostic routine writes the capture of the anchor display.
pub fn point_capture_path() -> (p: String)
    ensures
        p@ == "target/capture_display_with_point.png"@,
{
    "target/capture_display_with_point.png".to_owned()
}

} // verus!

//! Rendering of the module-options config file, the device path and the
//! `modprobe` argument lists for the video-loopback module.

use vstd::prelude::*;

verus! {

/// The decimal digit character for `d` in `0..=9`.
pub open spec fn dec_digit(d: int) -> char {
    if d == 0 {
        '0'
    } else if d == 1 {
        '1'
    } else if d == 2 {
        '2'
    } else if d == 3 {
        '3'
    } else if d == 4 {
        '4'
    } else if d == 5 {
        '5'
    } else if d == 6 {
        '6'
    } else if d == 7 {
        '7'
    } else if d == 8 {
        '8'
    } else {
        '9'
    }
}

/// The decimal digits of `n`, without leading zeros, for `n` up to three
/// digits (the device-number range is 0..=255).
pub open spec fn dec_of(n: int) -> Seq<char> {
    if n <= 9 {
        seq![dec_digit(n)]
    } else if n <= 99 {
        seq![dec_digit(n / 10), dec_digit(n % 10)]
    } else {
        seq![dec_digit(n / 100), dec_digit((n / 10) % 10), dec_digit(n % 10)]
    }
}

/// One decimal digit as a borrowed string.
fn digit_str(d: u32) -> (r: &'static str)
    requires
        d <= 9,
    ensures
        r@ == seq![dec_digit(d as int)],
{
    let r = if d == 0 {
        "0"
    } else if d == 1 {
        "1"
    } else if d == 2 {
        "2"
    } else if d == 3 {
        "3"
    } else if d == 4 {
        "4"
    } else if d == 5 {
        "5"
    } else if d == 6 {
        "6"
    } else if d == 7 {
        "7"
    } else if d == 8 {
        "8"
    } else {
        "9"
    };
    proof {
        reveal_strlit("0");
        reveal_strlit("1");
        reveal_strlit("2");
        reveal_strlit("3");
        reveal_strlit("4");
        reveal_strlit("5");
        reveal_strlit("6");
        reveal_strlit("7");
        reveal_strlit("8");
        reveal_strlit("9");
        assert(r@ =~= seq![dec_digit(d as int)]);
    }
    r
}

/// Appends the decimal form of `n` to `s`.
pub fn push_dec(s: &mut String, n: i64)
    requires
        0 <= n <= 255,
    ensures
        final(s)@ == old(s)@ + dec_of(n as int),
{
    let v = n as u32;
    if v >= 100 {
        s.append(digit_str(v / 100));
        s.append(digit_str((v / 10) % 10));
        s.append(digit_str(v % 10));
        proof {
            assert(final(s)@ =~= old(s)@ + dec_of(n as int));
        }
    } else if v >= 10 {
        s.append(digit_str(v / 10));
        s.append(digit_str(v % 10));
        proof {
            assert(final(s)@ =~= old(s)@ + dec_of(n as int));
        }
    } else {
        s.append(digit_str(v));
        proof {
            assert(final(s)@ =~= old(s)@ + dec_of(n as int));
        }
    }
}

/// The decimal form of a device number as an owned string.
pub fn dec_string(n: i64) -> (s: String)
    requires
        0 <= n <= 255,
    ensures
        s@ == dec_of(n as int),
{
    let mut s = String::new();
    push_dec(&mut s, n);
    proof {
        assert(s@ =~= dec_of(n as int));
    }
    s
}

/// The path of the device node for a configured device number.
pub open spec fn device_path_of(nr: int) -> Seq<char> {
    "/dev/video"@ + dec_of(nr)
}

/// Builds `/dev/video<N>` for the target device number.
pub fn device_path(video_nr: i64) -> (s: String)
    requires
        0 <= video_nr <= 255,
    ensures
        s@ == device_path_of(video_nr as int),
{
    let mut s = String::from_str("/dev/video");
    push_dec(&mut s, video_nr);
    s
}

/// The text of the static module-options config file.
pub open spec fn config_text_of(nr: int, label: Seq<char>, excl: bool) -> Seq<char> {
    "# Managed by AVream\noptions v4l2loopback video_nr="@ + dec_of(nr) + " card_label=\""@
        + label + "\" exclusive_caps="@ + (if excl {
        "1"@
    } else {
        "0"@
    }) + "\n"@
}

/// Renders the static config file contents for the desired parameters.
/// A device number outside 0..=255 is rejected; nothing else fails.
pub fn render_config(video_nr: i64, label: &str, exclusive_caps: bool) -> (r: Result<
    String,
    String,
>)
    ensures
        r is Ok <==> 0 <= video_nr <= 255,
        r matches Ok(s) ==> s@ == config_text_of(video_nr as int, label@, exclusive_caps),
        r matches Err(e) ==> e@ == "video_nr out of range (0-255)"@,
{
    if !(0 <= video_nr && video_nr <= 255) {
        return Err(String::from_str("video_nr out of range (0-255)"));
    }
    let mut s = String::from_str("# Managed by AVream\noptions v4l2loopback video_nr=");
    push_dec(&mut s, video_nr);
    s.append(" card_label=\"");
    s.append(label);
    s.append("\" exclusive_caps=");
    s.append(if exclusive_caps {
        "1"
    } else {
        "0"
    });
    s.append("\n");
    proof {
        assert(s@ =~= config_text_of(video_nr as int, label@, exclusive_caps));
    }
    Ok(s)
}

/// The path the rendered config file is written to.
pub fn config_file_path() -> (r: &'static str)
    ensures
        r@ == "/etc/modprobe.d/avream-v4l2loopback.conf"@,
{
    "/etc/modprobe.d/avream-v4l2loopback.conf"
}

/// The program used to load and unload kernel modules.
pub fn modprobe_program() -> (r: &'static str)
    ensures
        r@ == "modprobe"@,
{
    "modprobe"
}

/// The argument list that loads the video-loopback module with the
/// desired parameters.
pub open spec fn modprobe_load_args_of(nr: int, label: Seq<char>, excl: bool) -> Seq<Seq<char>> {
    seq![
        "v4l2loopback"@,
        "video_nr="@ + dec_of(nr),
        "card_label="@ + label,
        "exclusive_caps="@ + (if excl {
            "1"@
        } else {
            "0"@
        }),
    ]
}

/// Builds the `modprobe` arguments that load the video-loopback module
/// with the desired parameters.
pub fn modprobe_load(video_nr: i64, label: &str, exclusive_caps: bool) -> (args: Vec<String>)
    requires
        0 <= video_nr <= 255,
    ensures
        args.deep_view() == modprobe_load_args_of(video_nr as int, label@, exclusive_caps),
{
    let mut args: Vec<String> = Vec::new();
    args.push(String::from_str("v4l2loopback"));
    let mut nr_arg = String::from_str("video_nr=");
    push_dec(&mut nr_arg, video_nr);
    args.push(nr_arg);
    let label_arg = String::from_str("card_label=").concat(label);
    args.push(label_arg);
    let excl_arg = String::from_str("exclusive_caps=").concat(
        if exclusive_caps {
            "1"
        } else {
            "0"
        },
    );
    args.push(excl_arg);
    proof {
        assert(args.deep_view() =~= modprobe_load_args_of(
            video_nr as int,
            label@,
            exclusive_caps,
        ));
    }
    args
}

/// Builds the `modprobe` arguments that unload the video-loopback module.
pub fn modprobe_unload() -> (args: Vec<String>)
    ensures
        args.deep_view() == seq!["-r"@, "v4l2loopback"@],
{
    let mut args: Vec<String> = Vec::new();
    args.push(String::from_str("-r"));
    args.push(String::from_str("v4l2loopback"));
    proof {
        assert(args.deep_view() =~= seq!["-r"@, "v4l2loopback"@]);
    }
    args
}

} // verus!

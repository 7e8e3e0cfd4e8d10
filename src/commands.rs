//! The helper commands that the panel's controls issue.
use vstd::prelude::*;
use crate::device::{mode_name, EffectMode};
use crate::panel::Cmd;
use crate::text::{i32_decimal, i32_to_string, texts};

verus! {

/// `rgb per-zone` with one colour for all zones, or the four zone colours,
/// and a brightness.
pub open spec fn per_zone_spec(single: bool, colors: Seq<Seq<char>>, brightness: i32) -> Cmd {
    let cs = if single {
        seq![colors[0]]
    } else {
        colors.take(4)
    };
    seq!["rgb"@, "per-zone"@] + cs + seq!["-b"@, i32_decimal(brightness)]
}

/// `rgb effect` with its mode, speed, brightness, direction and, where one is
/// chosen, colour.
pub open spec fn effect_spec(
    mode: EffectMode,
    speed: i32,
    brightness: i32,
    direction: i32,
    color: Seq<char>,
) -> Cmd {
    let base = seq![
        "rgb"@,
        "effect"@,
        mode_name(mode),
        "-s"@,
        i32_decimal(speed),
        "-b"@,
        i32_decimal(brightness),
        "-d"@,
        i32_decimal(direction),
    ];
    if color.len() == 0 {
        base
    } else {
        base + seq!["-c"@, color]
    }
}

/// `logo set` with colour, brightness and power.
pub open spec fn logo_spec(color: Seq<char>, brightness: i32, on: bool) -> Cmd {
    seq![
        "logo"@,
        "set"@,
        color,
        "-b"@,
        i32_decimal(brightness),
        if on {
            "--on"@
        } else {
            "--off"@
        },
    ]
}

/// A fan's setting on the command line: `auto`, or its percentage.
pub open spec fn fan_value_spec(auto: bool, val: i32) -> Seq<char> {
    if auto {
        "auto"@
    } else {
        i32_decimal(val)
    }
}

/// `fan auto` where every fan is automatic, else `fan set` with both values;
/// with `link` the GPU follows the CPU.
pub open spec fn fan_spec(link: bool, cpu_auto: bool, cpu_val: i32, gpu_auto: bool, gpu_val: i32) -> Cmd {
    if cpu_auto && (link || gpu_auto) {
        seq!["fan"@, "auto"@]
    } else {
        seq![
            "fan"@,
            "set"@,
            "--cpu"@,
            fan_value_spec(cpu_auto, cpu_val),
            "--gpu"@,
            if link {
                fan_value_spec(cpu_auto, cpu_val)
            } else {
                fan_value_spec(gpu_auto, gpu_val)
            },
        ]
    }
}

fn word(s: &str, v: &mut Vec<String>)
    ensures
        texts(final(v)@) == texts(old(v)@).push(s@),
{
    v.push(s.to_owned());
    assert(texts(final(v)@) =~= texts(old(v)@).push(s@));
}

fn owned(s: String, v: &mut Vec<String>)
    ensures
        texts(final(v)@) == texts(old(v)@).push(s@),
{
    let ghost sv = s@;
    v.push(s);
    assert(texts(final(v)@) =~= texts(old(v)@).push(sv));
}

/// The command that sets the keyboard's zones.
pub fn per_zone_command(single: bool, colors: &Vec<String>, brightness: i32) -> (r: Vec<String>)
    requires
        colors@.len() == 4,
    ensures
        texts(r@) == per_zone_spec(single, texts(colors@), brightness),
{
    let mut r: Vec<String> = Vec::new();
    word("rgb", &mut r);
    word("per-zone", &mut r);
    if single {
        word(colors[0].as_str(), &mut r);
    } else {
        word(colors[0].as_str(), &mut r);
        word(colors[1].as_str(), &mut r);
        word(colors[2].as_str(), &mut r);
        word(colors[3].as_str(), &mut r);
    }
    word("-b", &mut r);
    owned(i32_to_string(brightness), &mut r);
    assert(texts(r@) =~= per_zone_spec(single, texts(colors@), brightness));
    r
}

/// The command that starts a keyboard effect.
pub fn effect_command(
    mode: EffectMode,
    speed: i32,
    brightness: i32,
    direction: i32,
    color: &str,
) -> (r: Vec<String>)
    ensures
        texts(r@) == effect_spec(mode, speed, brightness, direction, color@),
{
    let mut r: Vec<String> = Vec::new();
    word("rgb", &mut r);
    word("effect", &mut r);
    word(mode.name(), &mut r);
    word("-s", &mut r);
    owned(i32_to_string(speed), &mut r);
    word("-b", &mut r);
    owned(i32_to_string(brightness), &mut r);
    word("-d", &mut r);
    owned(i32_to_string(direction), &mut r);
    if !color.is_empty() {
        word("-c", &mut r);
        word(color, &mut r);
    }
    assert(texts(r@) =~= effect_spec(mode, speed, brightness, direction, color@));
    r
}

/// The command that turns the keyboard backlight off: all zones white at
/// brightness 0.
pub fn backlight_off_command() -> (r: Vec<String>)
    ensures
        texts(r@) == seq![
            "rgb"@,
            "per-zone"@,
            "ffffff"@,
            "ffffff"@,
            "ffffff"@,
            "ffffff"@,
            "-b"@,
            "0"@,
        ],
{
    let mut r: Vec<String> = Vec::new();
    word("rgb", &mut r);
    word("per-zone", &mut r);
    word("ffffff", &mut r);
    word("ffffff", &mut r);
    word("ffffff", &mut r);
    word("ffffff", &mut r);
    word("-b", &mut r);
    word("0", &mut r);
    assert(texts(r@) =~= seq![
        "rgb"@,
        "per-zone"@,
        "ffffff"@,
        "ffffff"@,
        "ffffff"@,
        "ffffff"@,
        "-b"@,
        "0"@,
    ]);
    r
}

/// The command that sets the back logo.
pub fn logo_command(color: &str, brightness: i32, on: bool) -> (r: Vec<String>)
    ensures
        texts(r@) == logo_spec(color@, brightness, on),
{
    let mut r: Vec<String> = Vec::new();
    word("logo", &mut r);
    word("set", &mut r);
    word(color, &mut r);
    word("-b", &mut r);
    owned(i32_to_string(brightness), &mut r);
    if on {
        word("--on", &mut r);
    } else {
        word("--off", &mut r);
    }
    assert(texts(r@) =~= logo_spec(color@, brightness, on));
    r
}

/// The command that selects a power profile.
pub fn power_set_command(choice: &str) -> (r: Vec<String>)
    ensures
        texts(r@) == seq!["power"@, "set"@, choice@],
{
    let mut r: Vec<String> = Vec::new();
    word("power", &mut r);
    word("set", &mut r);
    word(choice, &mut r);
    assert(texts(r@) =~= seq!["power"@, "set"@, choice@]);
    r
}

/// The command that turns the battery charge limit on or off.
pub fn battery_command(limit: bool) -> (r: Vec<String>)
    ensures
        texts(r@) == seq![
            "battery"@,
            if limit {
                "on"@
            } else {
                "off"@
            },
        ],
{
    let mut r: Vec<String> = Vec::new();
    word("battery", &mut r);
    if limit {
        word("on", &mut r);
    } else {
        word("off", &mut r);
    }
    assert(texts(r@) =~= seq![
        "battery"@,
        if limit {
            "on"@
        } else {
            "off"@
        },
    ]);
    r
}

fn fan_value(auto: bool, val: i32) -> (r: String)
    ensures
        r@ == fan_value_spec(auto, val),
{
    if auto {
        "auto".to_owned()
    } else {
        i32_to_string(val)
    }
}

/// The command that applies the fan settings.
pub fn fan_command(link: bool, cpu_auto: bool, cpu_val: i32, gpu_auto: bool, gpu_val: i32) -> (r:
    Vec<String>)
    ensures
        texts(r@) == fan_spec(link, cpu_auto, cpu_val, gpu_auto, gpu_val),
{
    let mut r: Vec<String> = Vec::new();
    word("fan", &mut r);
    if cpu_auto && (link || gpu_auto) {
        word("auto", &mut r);
    } else {
        word("set", &mut r);
        word("--cpu", &mut r);
        owned(fan_value(cpu_auto, cpu_val), &mut r);
        word("--gpu", &mut r);
        if link {
            owned(fan_value(cpu_auto, cpu_val), &mut r);
        } else {
            owned(fan_value(gpu_auto, gpu_val), &mut r);
        }
    }
    assert(texts(r@) =~= fan_spec(link, cpu_auto, cpu_val, gpu_auto, gpu_val));
    r
}

} // verus!

//! The last-known device configuration, and how each "get" reply of the
//! helper updates it.
use vstd::prelude::*;
use crate::color::{hex_spec, color_to_hex, Rgb};
use crate::text::{
    i32_or, parse_i32, parse_u8, same_text, split_on, split_spec, split_words, texts, trim,
    trim_spec, u8_or, words_spec,
};

verus! {

/// The keyboard's animated effects, in the helper's numbering.
#[derive(Clone, Copy, Debug, PartialEq, Eq, Structural)]
pub enum EffectMode {
    Static,
    Breathing,
    Neon,
    Wave,
    Shifting,
    Zoom,
    Meteor,
    Twinkling,
}

/// The effect that the helper numbers `i`, if any.
pub open spec fn mode_at(i: int) -> Option<EffectMode> {
    if i == 0 {
        Some(EffectMode::Static)
    } else if i == 1 {
        Some(EffectMode::Breathing)
    } else if i == 2 {
        Some(EffectMode::Neon)
    } else if i == 3 {
        Some(EffectMode::Wave)
    } else if i == 4 {
        Some(EffectMode::Shifting)
    } else if i == 5 {
        Some(EffectMode::Zoom)
    } else if i == 6 {
        Some(EffectMode::Meteor)
    } else if i == 7 {
        Some(EffectMode::Twinkling)
    } else {
        None
    }
}

/// The name by which the helper's command line knows an effect.
pub open spec fn mode_name(m: EffectMode) -> Seq<char> {
    match m {
        EffectMode::Static => "static"@,
        EffectMode::Breathing => "breathing"@,
        EffectMode::Neon => "neon"@,
        EffectMode::Wave => "wave"@,
        EffectMode::Shifting => "shifting"@,
        EffectMode::Zoom => "zoom"@,
        EffectMode::Meteor => "meteor"@,
        EffectMode::Twinkling => "twinkling"@,
    }
}

impl EffectMode {
    /// The effect numbered `i`; `None` outside `0..8`.
    pub fn from_index(i: i32) -> (r: Option<EffectMode>)
        ensures
            r == mode_at(i as int),
    {
        match i {
            0 => Some(EffectMode::Static),
            1 => Some(EffectMode::Breathing),
            2 => Some(EffectMode::Neon),
            3 => Some(EffectMode::Wave),
            4 => Some(EffectMode::Shifting),
            5 => Some(EffectMode::Zoom),
            6 => Some(EffectMode::Meteor),
            7 => Some(EffectMode::Twinkling),
            _ => None,
        }
    }

    /// The effect's name on the helper's command line.
    pub fn name(&self) -> (r: &'static str)
        ensures
            r@ == mode_name(*self),
    {
        match self {
            EffectMode::Static => "static",
            EffectMode::Breathing => "breathing",
            EffectMode::Neon => "neon",
            EffectMode::Wave => "wave",
            EffectMode::Shifting => "shifting",
            EffectMode::Zoom => "zoom",
            EffectMode::Meteor => "meteor",
            EffectMode::Twinkling => "twinkling",
        }
    }
}

/// The last-known hardware configuration.
pub struct DeviceState {
    pub kb_single_color: bool,
    pub kb_colors: Vec<String>,
    pub kb_brightness: i32,
    pub kb_effect_mode: EffectMode,
    pub kb_effect_speed: i32,
    pub kb_effect_brightness: i32,
    pub kb_effect_direction: i32,
    pub kb_effect_color: String,
    pub logo_on: bool,
    pub logo_color: String,
    pub logo_brightness: i32,
    pub power_choices: Vec<String>,
    pub power_current: String,
    pub battery_limit: bool,
    pub fans_cpu_auto: bool,
    pub fans_cpu_val: i32,
    pub fans_gpu_auto: bool,
    pub fans_gpu_val: i32,
    pub fans_current: String,
}

/// `DeviceState` with its texts as character sequences.
#[verifier::ext_equal]
pub struct DeviceView {
    pub kb_single_color: bool,
    pub kb_colors: Seq<Seq<char>>,
    pub kb_brightness: i32,
    pub kb_effect_mode: EffectMode,
    pub kb_effect_speed: i32,
    pub kb_effect_brightness: i32,
    pub kb_effect_direction: i32,
    pub kb_effect_color: Seq<char>,
    pub logo_on: bool,
    pub logo_color: Seq<char>,
    pub logo_brightness: i32,
    pub power_choices: Seq<Seq<char>>,
    pub power_current: Seq<char>,
    pub battery_limit: bool,
    pub fans_cpu_auto: bool,
    pub fans_cpu_val: i32,
    pub fans_gpu_auto: bool,
    pub fans_gpu_val: i32,
    pub fans_current: Seq<char>,
}

impl View for DeviceState {
    type V = DeviceView;

    open spec fn view(&self) -> DeviceView {
        DeviceView {
            kb_single_color: self.kb_single_color,
            kb_colors: texts(self.kb_colors@),
            kb_brightness: self.kb_brightness,
            kb_effect_mode: self.kb_effect_mode,
            kb_effect_speed: self.kb_effect_speed,
            kb_effect_brightness: self.kb_effect_brightness,
            kb_effect_direction: self.kb_effect_direction,
            kb_effect_color: self.kb_effect_color@,
            logo_on: self.logo_on,
            logo_color: self.logo_color@,
            logo_brightness: self.logo_brightness,
            power_choices: texts(self.power_choices@),
            power_current: self.power_current@,
            battery_limit: self.battery_limit,
            fans_cpu_auto: self.fans_cpu_auto,
            fans_cpu_val: self.fans_cpu_val,
            fans_gpu_auto: self.fans_gpu_auto,
            fans_gpu_val: self.fans_gpu_val,
            fans_current: self.fans_current@,
        }
    }
}

/// The state after a `logo get` reply `color,brightness,enable`; a reply
/// with another number of fields changes nothing.
pub open spec fn logo_get_spec(v: DeviceView, out: Seq<char>) -> DeviceView {
    let p = split_spec(out, ',');
    if p.len() == 3 {
        DeviceView {
            logo_color: p[0],
            logo_brightness: i32_or(p[1], 100),
            logo_on: trim_spec(p[2]) == "1"@,
            ..v
        }
    } else {
        v
    }
}

/// The state after a `fan get` reply `cpu,gpu`: 0 is automatic, a positive
/// value is that fan's manual setting. A reply with another number of fields
/// changes nothing.
pub open spec fn fan_get_spec(v: DeviceView, out: Seq<char>) -> DeviceView {
    let p = split_spec(out, ',');
    if p.len() == 2 {
        let cpu = i32_or(trim_spec(p[0]), 0);
        let gpu = i32_or(trim_spec(p[1]), 0);
        DeviceView {
            fans_cpu_auto: cpu == 0,
            fans_gpu_auto: gpu == 0,
            fans_cpu_val: if cpu > 0 {
                cpu
            } else {
                v.fans_cpu_val
            },
            fans_gpu_val: if gpu > 0 {
                gpu
            } else {
                v.fans_gpu_val
            },
            fans_current: out,
            ..v
        }
    } else {
        v
    }
}

/// The state after an `rgb per-zone-get` reply `c1,c2,c3,c4,brightness`; a
/// reply with another number of fields changes nothing.
pub open spec fn zones_get_spec(v: DeviceView, out: Seq<char>) -> DeviceView {
    let p = split_spec(out, ',');
    if p.len() == 5 {
        DeviceView {
            kb_colors: seq![p[0], p[1], p[2], p[3]],
            kb_brightness: i32_or(trim_spec(p[4]), 100),
            kb_single_color: p[1] == p[0] && p[2] == p[0] && p[3] == p[0],
            ..v
        }
    } else {
        v
    }
}

/// The effect colour of a reply's red, green and blue: none for black.
pub open spec fn effect_color_spec(r: u8, g: u8, b: u8) -> Seq<char> {
    if r == 0 && g == 0 && b == 0 {
        Seq::empty()
    } else {
        hex_spec(Rgb { r, g, b })
    }
}

/// The state after an `rgb effect-get` reply `mode,speed,brightness,dir,r,g,b`;
/// a reply with another number of fields changes nothing.
pub open spec fn effect_get_spec(v: DeviceView, out: Seq<char>) -> DeviceView {
    let p = split_spec(out, ',');
    if p.len() == 7 {
        let id = i32_or(trim_spec(p[0]), 0);
        DeviceView {
            kb_effect_mode: match mode_at(id as int) {
                Some(m) => m,
                None => v.kb_effect_mode,
            },
            kb_effect_speed: i32_or(trim_spec(p[1]), 1),
            kb_effect_brightness: i32_or(trim_spec(p[2]), 100),
            kb_effect_direction: i32_or(trim_spec(p[3]), 2),
            kb_effect_color: effect_color_spec(
                u8_or(trim_spec(p[4]), 0),
                u8_or(trim_spec(p[5]), 0),
                u8_or(trim_spec(p[6]), 0),
            ),
            ..v
        }
    } else {
        v
    }
}

/// A "get" reply with a wrong number of fields is ignored: the state stays
/// as it was, the last fan reading included.
pub proof fn lemma_wrong_field_count_ignored(v: DeviceView, out: Seq<char>)
    ensures
        split_spec(out, ',').len() != 3 ==> logo_get_spec(v, out) == v,
        split_spec(out, ',').len() != 2 ==> fan_get_spec(v, out) == v,
        split_spec(out, ',').len() != 5 ==> zones_get_spec(v, out) == v,
        split_spec(out, ',').len() != 7 ==> effect_get_spec(v, out) == v,
{
}

fn i32_or_default(s: &str, d: i32) -> (r: i32)
    ensures
        r == i32_or(s@, d),
{
    match parse_i32(s) {
        Some(v) => v,
        None => d,
    }
}

fn u8_or_default(s: &str, d: u8) -> (r: u8)
    ensures
        r == u8_or(s@, d),
{
    match parse_u8(s) {
        Some(v) => v,
        None => d,
    }
}

/// An owned copy of each text, in order.
pub fn owned_texts(parts: &Vec<&str>, n: usize) -> (r: Vec<String>)
    requires
        n <= parts@.len(),
    ensures
        r@.len() == n,
        forall|i: int| 0 <= i < n ==> #[trigger] r@[i]@ == parts@[i]@,
{
    let mut r: Vec<String> = Vec::new();
    let mut i: usize = 0;
    while i < n
        invariant
            i <= n <= parts@.len(),
            r@.len() == i,
            forall|j: int| 0 <= j < i ==> #[trigger] r@[j]@ == parts@[j]@,
        decreases n - i,
    {
        r.push(parts[i].to_owned());
        i = i + 1;
    }
    r
}

impl DeviceState {
    /// Takes a `power list` reply: the profiles, separated by white space.
    pub fn take_power_list(&mut self, out: &str)
        ensures
            final(self)@ == (DeviceView { power_choices: words_spec(out@), ..old(self)@ }),
    {
        let words = split_words(out);
        let choices = owned_texts(&words, words.len());
        self.power_choices = choices;
        assert(texts(self.power_choices@) =~= words_spec(out@));
        assert(self@ =~= (DeviceView { power_choices: words_spec(out@), ..old(self)@ }));
    }

    /// Takes a `logo get` reply.
    pub fn take_logo(&mut self, out: &str)
        ensures
            final(self)@ == logo_get_spec(old(self)@, out@),
    {
        let p = split_on(out, ',');
        if p.len() == 3 {
            self.logo_color = p[0].to_owned();
            self.logo_brightness = i32_or_default(p[1], 100);
            self.logo_on = same_text(trim(p[2]), "1");
        }
        assert(self@ =~= logo_get_spec(old(self)@, out@));
    }

    /// Takes a `fan get` reply.
    pub fn take_fans(&mut self, out: &str)
        ensures
            final(self)@ == fan_get_spec(old(self)@, out@),
    {
        let p = split_on(out, ',');
        if p.len() == 2 {
            self.fans_current = out.to_owned();
            let cpu = i32_or_default(trim(p[0]), 0);
            let gpu = i32_or_default(trim(p[1]), 0);
            self.fans_cpu_auto = cpu == 0;
            self.fans_gpu_auto = gpu == 0;
            if cpu > 0 {
                self.fans_cpu_val = cpu;
            }
            if gpu > 0 {
                self.fans_gpu_val = gpu;
            }
        }
        assert(self@ =~= fan_get_spec(old(self)@, out@));
    }

    /// Takes an `rgb per-zone-get` reply.
    pub fn take_zones(&mut self, out: &str)
        ensures
            final(self)@ == zones_get_spec(old(self)@, out@),
    {
        let p = split_on(out, ',');
        if p.len() == 5 {
            self.kb_colors = owned_texts(&p, 4);
            self.kb_brightness = i32_or_default(trim(p[4]), 100);
            self.kb_single_color = same_text(p[1], p[0]) && same_text(p[2], p[0]) && same_text(
                p[3],
                p[0],
            );
            assert(texts(self.kb_colors@) =~= seq![p@[0]@, p@[1]@, p@[2]@, p@[3]@]);
        }
        assert(self@ =~= zones_get_spec(old(self)@, out@));
    }

    /// Takes an `rgb effect-get` reply.
    pub fn take_effect(&mut self, out: &str)
        ensures
            final(self)@ == effect_get_spec(old(self)@, out@),
    {
        let p = split_on(out, ',');
        if p.len() == 7 {
            let id = i32_or_default(trim(p[0]), 0);
            match EffectMode::from_index(id) {
                Some(m) => self.kb_effect_mode = m,
                None => {},
            }
            self.kb_effect_speed = i32_or_default(trim(p[1]), 1);
            self.kb_effect_brightness = i32_or_default(trim(p[2]), 100);
            self.kb_effect_direction = i32_or_default(trim(p[3]), 2);
            let r = u8_or_default(trim(p[4]), 0);
            let g = u8_or_default(trim(p[5]), 0);
            let b = u8_or_default(trim(p[6]), 0);
            if r == 0 && g == 0 && b == 0 {
                self.kb_effect_color = String::new();
            } else {
                self.kb_effect_color = color_to_hex(Rgb { r, g, b });
            }
        }
        assert(self@ =~= effect_get_spec(old(self)@, out@));
    }
}

} // verus!

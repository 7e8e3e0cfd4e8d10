//! The command pipeline: a FIFO of helper commands, at most one of them in
//! flight, and the interpretation of each finished command.
use vstd::prelude::*;
use std::collections::VecDeque;
use crate::device::{
    effect_get_spec, fan_get_spec, logo_get_spec, owned_texts, zones_get_spec, DeviceState,
    DeviceView, EffectMode,
};
use crate::commands::{
    backlight_off_command, battery_command, effect_command, effect_spec, fan_command, fan_spec,
    logo_command, logo_spec, per_zone_command, per_zone_spec, power_set_command,
};
use crate::text::{same_text, texts, trim, trim_spec, words_spec};

verus! {

/// A helper command as its words.
pub type Cmd = Seq<Seq<char>>;

/// The words of each queued command.
pub open spec fn cmds(q: Seq<Vec<String>>) -> Seq<Cmd> {
    q.map_values(|c: Vec<String>| texts(c@))
}

/// The control panel's model: device state, status line, queue, and the
/// command in flight.
pub struct Panel {
    pub device: DeviceState,
    pub status_msg: String,
    pub is_error: bool,
    queue: VecDeque<Vec<String>>,
    pending: Option<Vec<String>>,
}

#[verifier::ext_equal]
pub struct PanelView {
    pub device: DeviceView,
    pub status: Seq<char>,
    pub is_error: bool,
    pub queue: Seq<Cmd>,
    pub pending: Option<Cmd>,
}

impl View for Panel {
    type V = PanelView;

    closed spec fn view(&self) -> PanelView {
        PanelView {
            device: self.device@,
            status: self.status_msg@,
            is_error: self.is_error,
            queue: cmds(self.queue@),
            pending: match self.pending {
                Some(c) => Some(texts(c@)),
                None => None,
            },
        }
    }
}

pub open spec fn cmd2(a: Seq<char>, b: Seq<char>) -> Cmd {
    seq![a, b]
}

/// Whether `args` is `domain sub ...`.
pub open spec fn is_sub(args: Cmd, domain: Seq<char>, sub: Seq<char>) -> bool {
    args.len() >= 2 && args[0] == domain && args[1] == sub
}

/// What a successful command's reply does to the device state.
pub open spec fn device_after(v: DeviceView, args: Cmd, out: Seq<char>) -> DeviceView {
    if is_sub(args, "power"@, "get"@) {
        DeviceView { power_current: out, ..v }
    } else if is_sub(args, "power"@, "list"@) {
        DeviceView { power_choices: words_spec(out), ..v }
    } else if is_sub(args, "battery"@, "get"@) {
        DeviceView { battery_limit: trim_spec(out) == "1"@, ..v }
    } else if is_sub(args, "logo"@, "get"@) {
        logo_get_spec(v, out)
    } else if is_sub(args, "fan"@, "get"@) {
        fan_get_spec(v, out)
    } else if is_sub(args, "rgb"@, "per-zone-get"@) {
        zones_get_spec(v, out)
    } else if is_sub(args, "rgb"@, "effect-get"@) {
        effect_get_spec(v, out)
    } else {
        v
    }
}

/// Whether a successful command's reply is a battery-limit change.
pub open spec fn is_battery_change(args: Cmd) -> bool {
    is_sub(args, "battery"@, "on"@) || is_sub(args, "battery"@, "off"@) || is_sub(
        args,
        "battery"@,
        "set"@,
    )
}

/// The status message that a successful command leaves, if it leaves one.
pub open spec fn status_after(args: Cmd, out: Seq<char>) -> Option<Seq<char>> {
    if args.len() == 0 {
        None
    } else if args[0] == "power"@ {
        if is_sub(args, "power"@, "set"@) {
            Some("Power profile set to "@ + out)
        } else {
            None
        }
    } else if args[0] == "battery"@ {
        if is_battery_change(args) {
            Some(out)
        } else {
            None
        }
    } else if args[0] == "logo"@ {
        if is_sub(args, "logo"@, "get"@) {
            None
        } else {
            Some(out)
        }
    } else if args[0] == "fan"@ {
        if is_sub(args, "fan"@, "get"@) {
            None
        } else {
            Some(out)
        }
    } else if args[0] == "rgb"@ {
        if is_sub(args, "rgb"@, "per-zone-get"@) || is_sub(args, "rgb"@, "effect-get"@) {
            None
        } else {
            Some(out)
        }
    } else {
        Some(out)
    }
}

/// The commands that a successful command queues to read back what it set.
pub open spec fn follow_ups(args: Cmd) -> Seq<Cmd> {
    if is_sub(args, "power"@, "set"@) {
        seq![cmd2("power"@, "get"@)]
    } else if is_battery_change(args) {
        seq![cmd2("battery"@, "get"@)]
    } else if args.len() >= 1 && args[0] == "fan"@ && !is_sub(args, "fan"@, "get"@) {
        seq![cmd2("fan"@, "get"@)]
    } else {
        seq![]
    }
}

/// The panel after a command `args` succeeded with reply `out`.
pub open spec fn success_spec(p: PanelView, args: Cmd, out: Seq<char>) -> PanelView {
    PanelView {
        device: device_after(p.device, args, out),
        status: match status_after(args, out) {
            Some(m) => m,
            None => p.status,
        },
        is_error: if status_after(args, out) is Some {
            false
        } else {
            p.is_error
        },
        queue: p.queue + follow_ups(args),
        ..p
    }
}

/// The panel after the command in flight finished with `ok` and `out`: a
/// failure only sets the error status.
pub open spec fn complete_spec(p: PanelView, ok: bool, out: Seq<char>) -> PanelView {
    let q = PanelView { pending: None, ..p };
    if ok {
        success_spec(q, p.pending->0, out)
    } else {
        PanelView { status: out, is_error: true, ..q }
    }
}

/// The panel after a dispatch tick: when idle, the head of the queue goes in
/// flight; while a command is in flight nothing starts.
pub open spec fn start_spec(p: PanelView) -> PanelView {
    if p.pending is None && p.queue.len() > 0 {
        PanelView { pending: Some(p.queue[0]), queue: p.queue.drop_first(), ..p }
    } else {
        p
    }
}

/// The reads that bring the whole device state up to date.
pub open spec fn refresh_cmds() -> Seq<Cmd> {
    seq![
        cmd2("power"@, "list"@),
        cmd2("power"@, "get"@),
        cmd2("battery"@, "get"@),
        cmd2("logo"@, "get"@),
        cmd2("fan"@, "get"@),
        cmd2("rgb"@, "per-zone-get"@),
        cmd2("rgb"@, "effect-get"@),
    ]
}

/// The state assumed before the helper has answered anything.
pub open spec fn initial_device() -> DeviceView {
    DeviceView {
        kb_single_color: true,
        kb_colors: seq!["00aaff"@, "00aaff"@, "00aaff"@, "00aaff"@],
        kb_brightness: 100,
        kb_effect_mode: EffectMode::Wave,
        kb_effect_speed: 1,
        kb_effect_brightness: 100,
        kb_effect_direction: 2,
        kb_effect_color: Seq::empty(),
        logo_on: true,
        logo_color: "00ffcc"@,
        logo_brightness: 100,
        power_choices: seq!["balanced"@, "performance"@, "power-saver"@],
        power_current: "unknown"@,
        battery_limit: false,
        fans_cpu_auto: true,
        fans_cpu_val: 50,
        fans_gpu_auto: true,
        fans_gpu_val: 50,
        fans_current: "unknown"@,
    }
}

/// What tells the words of the helper's command line apart: their lengths,
/// and the first letters of those of equal length.
proof fn lemma_words()
    ensures
        "power"@.len() == 5 && "battery"@.len() == 7 && "logo"@.len() == 4 && "fan"@.len() == 3
            && "rgb"@.len() == 3 && "fan"@ != "rgb"@,
        "get"@.len() == 3 && "list"@.len() == 4 && "set"@.len() == 3 && "on"@.len() == 2
            && "off"@.len() == 3 && "per-zone-get"@.len() == 12 && "effect-get"@.len() == 10,
        "get"@ != "set"@ && "get"@ != "off"@ && "set"@ != "off"@,
{
    reveal_strlit("power");
    reveal_strlit("battery");
    reveal_strlit("logo");
    reveal_strlit("fan");
    reveal_strlit("rgb");
    reveal_strlit("get");
    reveal_strlit("list");
    reveal_strlit("set");
    reveal_strlit("on");
    reveal_strlit("off");
    reveal_strlit("per-zone-get");
    reveal_strlit("effect-get");
    assert("fan"@[0] != "rgb"@[0]);
    assert("get"@[0] != "set"@[0] && "get"@[0] != "off"@[0] && "set"@[0] != "off"@[0]);
}

/// A two-word command.
pub fn command2(a: &str, b: &str) -> (r: Vec<String>)
    ensures
        texts(r@) == cmd2(a@, b@),
{
    let mut r: Vec<String> = Vec::new();
    r.push(a.to_owned());
    r.push(b.to_owned());
    assert(texts(r@) =~= cmd2(a@, b@));
    r
}

/// A copy of a command.
pub fn copy_command(c: &Vec<String>) -> (r: Vec<String>)
    ensures
        texts(r@) == texts(c@),
{
    let mut r: Vec<String> = Vec::new();
    let mut i: usize = 0;
    while i < c.len()
        invariant
            i <= c@.len(),
            texts(r@) =~= texts(c@).take(i as int),
        decreases c@.len() - i,
    {
        let ghost before = r@;
        r.push(c[i].clone());
        assert(texts(r@) =~= texts(before).push(c@[i as int]@));
        i = i + 1;
        assert(texts(c@).take(i as int) =~= texts(c@).take(i - 1).push(c@[i - 1]@));
    }
    assert(texts(c@).take(i as int) =~= texts(c@));
    r
}

impl Panel {
    /// A panel in its initial state that has queued a full refresh.
    pub fn new() -> (r: Panel)
        ensures
            r@.device == initial_device(),
            r@.status == "Ready"@,
            !r@.is_error,
            r@.queue == refresh_cmds(),
            r@.pending is None,
    {
        let mut colors: Vec<String> = Vec::new();
        colors.push("00aaff".to_owned());
        colors.push("00aaff".to_owned());
        colors.push("00aaff".to_owned());
        colors.push("00aaff".to_owned());
        let mut choices: Vec<&str> = Vec::new();
        choices.push("balanced");
        choices.push("performance");
        choices.push("power-saver");
        let device = DeviceState {
            kb_single_color: true,
            kb_colors: colors,
            kb_brightness: 100,
            kb_effect_mode: EffectMode::Wave,
            kb_effect_speed: 1,
            kb_effect_brightness: 100,
            kb_effect_direction: 2,
            kb_effect_color: String::new(),
            logo_on: true,
            logo_color: "00ffcc".to_owned(),
            logo_brightness: 100,
            power_choices: owned_texts(&choices, 3),
            power_current: "unknown".to_owned(),
            battery_limit: false,
            fans_cpu_auto: true,
            fans_cpu_val: 50,
            fans_gpu_auto: true,
            fans_gpu_val: 50,
            fans_current: "unknown".to_owned(),
        };
        assert(device@ =~= initial_device());
        let mut app = Panel {
            device,
            status_msg: "Ready".to_owned(),
            is_error: false,
            queue: VecDeque::new(),
            pending: None,
        };
        assert(app@.queue =~= Seq::<Cmd>::empty());
        app.refresh_all();
        assert(app@.queue =~= refresh_cmds());
        app
    }

    /// The commands waiting, in dispatch order.
    pub fn queued(&self) -> (r: usize)
        ensures
            r == self@.queue.len(),
    {
        self.queue.len()
    }

    /// Whether a command is in flight.
    pub fn is_busy(&self) -> (r: bool)
        ensures
            r == self@.pending is Some,
    {
        self.pending.is_some()
    }

    /// Appends a command to the queue.
    pub fn run_cmd(&mut self, args: Vec<String>)
        ensures
            final(self)@ == (PanelView { queue: old(self)@.queue.push(texts(args@)), ..old(self)@ }),
    {
        self.queue.push_back(args);
        assert(cmds(self.queue@) =~= cmds(old(self).queue@).push(texts(args@)));
        assert(self@ =~= (PanelView { queue: old(self)@.queue.push(texts(args@)), ..old(self)@ }));
    }

    fn run_cmd2(&mut self, a: &str, b: &str)
        ensures
            final(self)@ == (PanelView { queue: old(self)@.queue.push(cmd2(a@, b@)), ..old(self)@ }),
    {
        self.run_cmd(command2(a, b));
    }

    /// Queues the reads of every part of the device state.
    pub fn refresh_all(&mut self)
        ensures
            final(self)@ == (PanelView { queue: old(self)@.queue + refresh_cmds(), ..old(self)@ }),
    {
        self.run_cmd2("power", "list");
        self.run_cmd2("power", "get");
        self.run_cmd2("battery", "get");
        self.run_cmd2("logo", "get");
        self.run_cmd2("fan", "get");
        self.run_cmd2("rgb", "per-zone-get");
        self.run_cmd2("rgb", "effect-get");
        assert(self@.queue =~= old(self)@.queue + refresh_cmds());
        assert(self@ =~= (PanelView { queue: old(self)@.queue + refresh_cmds(), ..old(self)@ }));
    }

    /// Shows an informational status message.
    pub fn status_info(&mut self, msg: String)
        ensures
            final(self)@ == (PanelView { status: msg@, is_error: false, ..old(self)@ }),
    {
        self.status_msg = msg;
        self.is_error = false;
        assert(self@ =~= (PanelView { status: msg@, is_error: false, ..old(self)@ }));
    }

    /// Shows an error status message.
    pub fn status_error(&mut self, msg: String)
        ensures
            final(self)@ == (PanelView { status: msg@, is_error: true, ..old(self)@ }),
    {
        self.status_msg = msg;
        self.is_error = true;
        assert(self@ =~= (PanelView { status: msg@, is_error: true, ..old(self)@ }));
    }

    /// Interprets the reply of a command that succeeded: updates the device
    /// state from a "get", shows the reply of a change, and queues the read
    /// that confirms a change.
    pub fn handle_command_success(&mut self, args: &Vec<String>, output: &str)
        ensures
            final(self)@ == success_spec(old(self)@, texts(args@), output@),
    {
        let ghost a = texts(args@);
        let ghost goal = success_spec(old(self)@, a, output@);
        proof {
            lemma_words();
        }
        assert(old(self)@.queue + Seq::<Cmd>::empty() =~= old(self)@.queue);
        if args.len() == 0 {
            assert(self@ =~= goal);
            return;
        }
        let d = args[0].as_str();
        if same_text(d, "power") {
            self.on_power(args, output);
        } else if same_text(d, "battery") {
            self.on_battery(args, output);
        } else if same_text(d, "logo") {
            self.on_logo(args, output);
        } else if same_text(d, "fan") {
            self.on_fan(args, output);
        } else if same_text(d, "rgb") {
            self.on_rgb(args, output);
        } else {
            self.status_info(output.to_owned());
            assert(self@ =~= goal);
        }
    }

    fn on_power(&mut self, args: &Vec<String>, output: &str)
        requires
            args@.len() >= 1 && args@[0]@ == "power"@,
        ensures
            final(self)@ == success_spec(old(self)@, texts(args@), output@),
    {
        let ghost a = texts(args@);
        let ghost goal = success_spec(old(self)@, a, output@);
        proof {
            lemma_words();
        }
        assert(old(self)@.queue + Seq::<Cmd>::empty() =~= old(self)@.queue);
        if args.len() >= 2 {
            let s = args[1].as_str();
            if same_text(s, "get") {
                self.device.power_current = output.to_owned();
                assert(self.device@ =~= device_after(old(self)@.device, a, output@));
            } else if same_text(s, "list") {
                self.device.take_power_list(output);
            } else if same_text(s, "set") {
                let mut m = "Power profile set to ".to_owned();
                m.append(output);
                self.status_info(m);
                self.run_cmd2("power", "get");
                assert(self@.queue =~= goal.queue);
            }
        }
        assert(self@ =~= goal);
    }

    fn on_battery(&mut self, args: &Vec<String>, output: &str)
        requires
            args@.len() >= 1 && args@[0]@ == "battery"@,
        ensures
            final(self)@ == success_spec(old(self)@, texts(args@), output@),
    {
        let ghost a = texts(args@);
        let ghost goal = success_spec(old(self)@, a, output@);
        proof {
            lemma_words();
        }
        assert(old(self)@.queue + Seq::<Cmd>::empty() =~= old(self)@.queue);
        if args.len() >= 2 {
            let s = args[1].as_str();
            if same_text(s, "get") {
                self.device.battery_limit = same_text(trim(output), "1");
                assert(self.device@ =~= device_after(old(self)@.device, a, output@));
            } else if same_text(s, "on") || same_text(s, "off") || same_text(s, "set") {
                self.status_info(output.to_owned());
                self.run_cmd2("battery", "get");
                assert(self@.queue =~= goal.queue);
            }
        }
        assert(self@ =~= goal);
    }

    fn on_logo(&mut self, args: &Vec<String>, output: &str)
        requires
            args@.len() >= 1 && args@[0]@ == "logo"@,
        ensures
            final(self)@ == success_spec(old(self)@, texts(args@), output@),
    {
        let ghost goal = success_spec(old(self)@, texts(args@), output@);
        proof {
            lemma_words();
        }
        assert(old(self)@.queue + Seq::<Cmd>::empty() =~= old(self)@.queue);
        if args.len() >= 2 && same_text(args[1].as_str(), "get") {
            self.device.take_logo(output);
        } else {
            self.status_info(output.to_owned());
        }
        assert(self@ =~= goal);
    }

    fn on_fan(&mut self, args: &Vec<String>, output: &str)
        requires
            args@.len() >= 1 && args@[0]@ == "fan"@,
        ensures
            final(self)@ == success_spec(old(self)@, texts(args@), output@),
    {
        let ghost goal = success_spec(old(self)@, texts(args@), output@);
        proof {
            lemma_words();
        }
        assert(old(self)@.queue + Seq::<Cmd>::empty() =~= old(self)@.queue);
        if args.len() >= 2 && same_text(args[1].as_str(), "get") {
            self.device.take_fans(output);
        } else {
            self.status_info(output.to_owned());
            self.run_cmd2("fan", "get");
            assert(self@.queue =~= goal.queue);
        }
        assert(self@ =~= goal);
    }

    fn on_rgb(&mut self, args: &Vec<String>, output: &str)
        requires
            args@.len() >= 1 && args@[0]@ == "rgb"@,
        ensures
            final(self)@ == success_spec(old(self)@, texts(args@), output@),
    {
        let ghost goal = success_spec(old(self)@, texts(args@), output@);
        proof {
            lemma_words();
        }
        assert(old(self)@.queue + Seq::<Cmd>::empty() =~= old(self)@.queue);
        if args.len() >= 2 && same_text(args[1].as_str(), "per-zone-get") {
            self.device.take_zones(output);
        } else if args.len() >= 2 && same_text(args[1].as_str(), "effect-get") {
            self.device.take_effect(output);
        } else {
            self.status_info(output.to_owned());
        }
        assert(self@ =~= goal);
    }

    /// Starts the next command when none is in flight, and returns it for
    /// the caller to run; otherwise returns `None` and changes nothing.
    pub fn start_next(&mut self) -> (r: Option<Vec<String>>)
        ensures
            final(self)@ == start_spec(old(self)@),
            match r {
                Some(c) => old(self)@.pending is None && old(self)@.queue.len() > 0 && texts(c@)
                    == old(self)@.queue[0],
                None => old(self)@.pending is Some || old(self)@.queue.len() == 0,
            },
            final(self)@.pending is Some ==> final(self)@.pending == old(self)@.pending || r is Some,
    {
        if self.pending.is_some() {
            return None;
        }
        match self.queue.pop_front() {
            Some(args) => {
                let copy = copy_command(&args);
                self.pending = Some(args);
                assert(cmds(self.queue@) =~= cmds(old(self).queue@).drop_first());
                assert(self@ =~= start_spec(old(self)@));
                Some(copy)
            },
            None => None,
        }
    }

    /// Hands the outcome of the command in flight to the interpreter (on
    /// success) or to the status line (on failure), and clears the slot.
    pub fn finish_pending(&mut self, ok: bool, output: String)
        requires
            old(self)@.pending is Some,
        ensures
            final(self)@ == complete_spec(old(self)@, ok, output@),
    {
        let args = match self.pending.take() {
            Some(a) => a,
            None => Vec::new(),
        };
        assert(self@ =~= (PanelView { pending: None, ..old(self)@ }));
        if ok {
            self.handle_command_success(&args, output.as_str());
        } else {
            self.status_error(output);
        }
    }
}

impl Panel {
    /// Sets the keyboard zones from the device state, then reads them back.
    pub fn apply_per_zone(&mut self)
        requires
            old(self)@.device.kb_colors.len() == 4,
        ensures
            final(self)@ == (PanelView {
                queue: old(self)@.queue.push(
                    per_zone_spec(
                        old(self)@.device.kb_single_color,
                        old(self)@.device.kb_colors,
                        old(self)@.device.kb_brightness,
                    ),
                ).push(cmd2("rgb"@, "per-zone-get"@)),
                ..old(self)@
            }),
    {
        let args = per_zone_command(
            self.device.kb_single_color,
            &self.device.kb_colors,
            self.device.kb_brightness,
        );
        self.run_cmd(args);
        self.run_cmd(command2("rgb", "per-zone-get"));
    }

    /// Starts the effect that the device state describes, then reads it back.
    pub fn apply_effect(&mut self)
        ensures
            final(self)@ == (PanelView {
                queue: old(self)@.queue.push(
                    effect_spec(
                        old(self)@.device.kb_effect_mode,
                        old(self)@.device.kb_effect_speed,
                        old(self)@.device.kb_effect_brightness,
                        old(self)@.device.kb_effect_direction,
                        old(self)@.device.kb_effect_color,
                    ),
                ).push(cmd2("rgb"@, "effect-get"@)),
                ..old(self)@
            }),
    {
        let args = effect_command(
            self.device.kb_effect_mode,
            self.device.kb_effect_speed,
            self.device.kb_effect_brightness,
            self.device.kb_effect_direction,
            self.device.kb_effect_color.as_str(),
        );
        self.run_cmd(args);
        self.run_cmd(command2("rgb", "effect-get"));
    }

    /// Turns the keyboard backlight off, then reads the zones back.
    pub fn turn_off_backlight(&mut self)
        ensures
            final(self)@ == (PanelView {
                queue: old(self)@.queue.push(
                    seq!["rgb"@, "per-zone"@, "ffffff"@, "ffffff"@, "ffffff"@, "ffffff"@, "-b"@, "0"@],
                ).push(cmd2("rgb"@, "per-zone-get"@)),
                ..old(self)@
            }),
    {
        self.run_cmd(backlight_off_command());
        self.run_cmd(command2("rgb", "per-zone-get"));
    }

    /// Sets the back logo from the device state, then reads it back.
    pub fn apply_logo(&mut self)
        ensures
            final(self)@ == (PanelView {
                queue: old(self)@.queue.push(
                    logo_spec(
                        old(self)@.device.logo_color,
                        old(self)@.device.logo_brightness,
                        old(self)@.device.logo_on,
                    ),
                ).push(cmd2("logo"@, "get"@)),
                ..old(self)@
            }),
    {
        let args = logo_command(
            self.device.logo_color.as_str(),
            self.device.logo_brightness,
            self.device.logo_on,
        );
        self.run_cmd(args);
        self.run_cmd(command2("logo", "get"));
    }

    /// Selects a power profile; its success queues the read-back.
    pub fn select_power_profile(&mut self, choice: &str)
        ensures
            final(self)@ == (PanelView {
                queue: old(self)@.queue.push(seq!["power"@, "set"@, choice@]),
                ..old(self)@
            }),
    {
        self.run_cmd(power_set_command(choice));
    }

    /// Turns the battery charge limit on or off; its success queues the
    /// read-back.
    pub fn set_battery_limit(&mut self, limit: bool)
        ensures
            final(self)@ == (PanelView {
                queue: old(self)@.queue.push(
                    seq![
                        "battery"@,
                        if limit {
                            "on"@
                        } else {
                            "off"@
                        },
                    ],
                ),
                ..old(self)@
            }),
    {
        self.run_cmd(battery_command(limit));
    }

    /// Applies the fan settings of the device state, the GPU following the
    /// CPU where `link`; its success queues the read-back.
    pub fn apply_fans(&mut self, link: bool)
        ensures
            final(self)@ == (PanelView {
                queue: old(self)@.queue.push(
                    fan_spec(
                        link,
                        old(self)@.device.fans_cpu_auto,
                        old(self)@.device.fans_cpu_val,
                        old(self)@.device.fans_gpu_auto,
                        old(self)@.device.fans_gpu_val,
                    ),
                ),
                ..old(self)@
            }),
    {
        let args = fan_command(
            link,
            self.device.fans_cpu_auto,
            self.device.fans_cpu_val,
            self.device.fans_gpu_auto,
            self.device.fans_gpu_val,
        );
        self.run_cmd(args);
    }
}

/// The commands that go in flight, in order, when the dispatch loop runs
/// and the command in flight finishes with each of `results` in turn.
pub open spec fn dispatched(p: PanelView, results: Seq<(bool, Seq<char>)>) -> Seq<Cmd>
    decreases results.len(),
{
    if results.len() == 0 {
        seq![]
    } else {
        let s = start_spec(p);
        match s.pending {
            Some(c) => seq![c] + dispatched(
                complete_spec(s, results[0].0, results[0].1),
                results.drop_first(),
            ),
            None => seq![],
        }
    }
}

/// Commands run in the order in which they were queued, whatever each one's
/// outcome and whatever it queues after itself: from an idle panel, the
/// first `n` commands dispatched are the first `n` of the queue.
pub proof fn lemma_dispatch_in_enqueue_order(p: PanelView, results: Seq<(bool, Seq<char>)>)
    requires
        p.pending is None,
        results.len() <= p.queue.len(),
    ensures
        dispatched(p, results) == p.queue.take(results.len() as int),
    decreases results.len(),
{
    if results.len() > 0 {
        let s = start_spec(p);
        let c = complete_spec(s, results[0].0, results[0].1);
        let n = results.len() - 1;
        assert(c.queue.take(n) =~= p.queue.drop_first().take(n));
        lemma_dispatch_in_enqueue_order(c, results.drop_first());
        assert(seq![p.queue[0]] + p.queue.drop_first().take(n) =~= p.queue.take(results.len() as int));
    } else {
        assert(p.queue.take(0) =~= Seq::<Cmd>::empty());
    }
}

/// While a command is in flight the dispatch loop starts nothing: there is
/// never a second command in flight.
pub proof fn lemma_one_in_flight(p: PanelView)
    ensures
        p.pending is Some ==> start_spec(p) == p,
        start_spec(p).pending is Some ==> (p.pending is Some || start_spec(p).queue.len() + 1
            == p.queue.len()),
{
}

/// A successful `power set <name>` queues exactly one `power get`, after
/// everything that was queued before it finished.
pub proof fn lemma_power_set_follow_up(p: PanelView, name: Seq<char>, out: Seq<char>)
    requires
        p.pending == Some(seq!["power"@, "set"@, name]),
    ensures
        complete_spec(p, true, out).queue == p.queue.push(cmd2("power"@, "get"@)),
        complete_spec(p, true, out).status == "Power profile set to "@ + out,
{
    lemma_words();
    let args = seq!["power"@, "set"@, name];
    assert(is_sub(args, "power"@, "set"@));
    assert(p.queue + seq![cmd2("power"@, "get"@)] =~= p.queue.push(cmd2("power"@, "get"@)));
}

/// The keyboard keeps four zone colours: whatever the helper replies, a
/// finished command leaves as many zones as there were.
pub proof fn lemma_four_zones_kept(p: PanelView, ok: bool, out: Seq<char>)
    requires
        p.device.kb_colors.len() == 4,
        p.pending is Some,
    ensures
        complete_spec(p, ok, out).device.kb_colors.len() == 4,
        start_spec(p).device == p.device,
{
}

} // verus!

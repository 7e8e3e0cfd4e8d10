use nekro_sense::color::{color_to_hex, hex_to_color, Rgb};
use nekro_sense::commands::{
    backlight_off_command, battery_command, effect_command, fan_command, logo_command,
    per_zone_command, power_set_command,
};
use nekro_sense::device::EffectMode;
use nekro_sense::panel::Panel;
use nekro_sense::runner::{
    helper_script, invocation, is_permission_denied, needs_password, needs_password_lowered,
    next_step, permission_denied_lowered, Attempt, Step, Tier,
};

fn cmd(words: &[&str]) -> Vec<String> {
    words.iter().map(|w| w.to_string()).collect()
}

fn exited(success: bool, code: Option<i32>, stdout: &str, stderr: &str) -> Attempt {
    Attempt::Exited {
        success,
        code,
        stdout: stdout.to_string(),
        stderr: stderr.to_string(),
    }
}

/// A panel with its start-up refresh drained, so that its queue is empty.
fn idle_panel() -> Panel {
    let mut p = Panel::new();
    while p.start_next().is_some() {
        p.finish_pending(false, String::new());
    }
    p.status_info("Ready".to_string());
    p
}

/// Runs one command through the panel as if the helper answered `ok, out`.
fn run_one(p: &mut Panel, args: &[&str], ok: bool, out: &str) {
    p.run_cmd(cmd(args));
    let started = p.start_next().expect("a command starts");
    assert_eq!(started, cmd(args));
    p.finish_pending(ok, out.to_string());
}

/// Drives the ladder with a stub launcher, recording the rungs it asked for.
fn run_ladder(outcomes: Vec<Attempt>) -> (Vec<Tier>, bool, String) {
    let mut tiers = Vec::new();
    let mut tier = Tier::Direct;
    let mut outcomes = outcomes.into_iter();
    loop {
        tiers.push(tier);
        let attempt = outcomes.next().expect("an outcome for each rung");
        match next_step(tier, &attempt) {
            Step::Done(ok, out) => return (tiers, ok, out),
            Step::Escalate(t) => tier = t,
        }
    }
}

#[test]
fn direct_success_returns_trimmed_stdout() {
    let (tiers, ok, out) = run_ladder(vec![exited(true, Some(0), "  balanced\n", "")]);
    assert_eq!(tiers, vec![Tier::Direct]);
    assert!(ok);
    assert_eq!(out, "balanced");
}

#[test]
fn non_permission_failure_never_escalates() {
    let (tiers, ok, out) =
        run_ladder(vec![exited(false, Some(1), "", "  invalid profile name\n")]);
    assert_eq!(tiers.iter().filter(|t| **t == Tier::Sudo).count(), 0);
    assert_eq!(tiers.iter().filter(|t| **t == Tier::Pkexec).count(), 0);
    assert!(!ok);
    assert_eq!(out, "invalid profile name");
}

#[test]
fn permission_failure_escalates_to_sudo() {
    let (tiers, ok, out) = run_ladder(vec![
        exited(false, Some(3), "", "denied"),
        exited(true, Some(0), "performance\n", ""),
    ]);
    assert_eq!(tiers, vec![Tier::Direct, Tier::Sudo]);
    assert!(ok);
    assert_eq!(out, "performance");
}

#[test]
fn sudo_password_prompt_escalates_to_pkexec() {
    let (tiers, ok, out) = run_ladder(vec![
        exited(false, Some(1), "", "Error: Permission Denied"),
        exited(false, Some(1), "", "sudo: a password is required\n"),
        exited(false, Some(126), "", " dismissed \n"),
    ]);
    assert_eq!(tiers, vec![Tier::Direct, Tier::Sudo, Tier::Pkexec]);
    assert!(!ok);
    assert_eq!(out, "dismissed");
}

#[test]
fn sudo_other_failure_stops() {
    let (tiers, ok, out) = run_ladder(vec![
        exited(false, Some(1), "", "must be root"),
        exited(false, Some(2), "", "bad argument"),
    ]);
    assert_eq!(tiers, vec![Tier::Direct, Tier::Sudo]);
    assert!(!ok);
    assert_eq!(out, "bad argument");
}

#[test]
fn launch_failure_is_final() {
    let (tiers, ok, out) = run_ladder(vec![Attempt::LaunchFailed {
        error: "No such file or directory".to_string(),
    }]);
    assert_eq!(tiers, vec![Tier::Direct]);
    assert!(!ok);
    assert_eq!(out, "No such file or directory");
    let r = next_step(Tier::Sudo, &Attempt::LaunchFailed { error: "gone".to_string() });
    assert!(matches!(r, Step::Done(false, ref m) if m == "gone"));
}

#[test]
fn permission_classifier() {
    assert!(is_permission_denied(Some(3), ""));
    assert!(is_permission_denied(Some(1), "OPERATION NOT PERMITTED"));
    assert!(is_permission_denied(None, "Not Authorized to do that"));
    assert!(is_permission_denied(Some(1), "Authentication is required"));
    assert!(!is_permission_denied(Some(1), "no such zone"));
    assert!(!is_permission_denied(Some(127), ""));
}

#[test]
fn password_classifier() {
    assert!(needs_password(Some(127), ""));
    assert!(needs_password(Some(1), "sudo: no tty present and no askpass program"));
    assert!(needs_password(Some(1), "Password: authentication failure"));
    assert!(needs_password(Some(1), "sudo: Unable to authenticate"));
    assert!(!needs_password(Some(1), "password"));
    assert!(!needs_password(Some(3), "python3: not found"));
}

#[test]
fn invocations_per_tier() {
    let args = cmd(&["power", "get"]);
    let (p, a) = invocation(Tier::Direct, "nekroctl.py", &args);
    assert_eq!(p, "python3");
    assert_eq!(a, cmd(&["nekroctl.py", "power", "get"]));
    let (p, a) = invocation(Tier::Sudo, "nekroctl.py", &args);
    assert_eq!(p, "sudo");
    assert_eq!(a, cmd(&["-n", "python3", "nekroctl.py", "power", "get"]));
    let (p, a) = invocation(Tier::Pkexec, "nekroctl.py", &args);
    assert_eq!(p, "pkexec");
    assert_eq!(a, cmd(&["python3", "nekroctl.py", "power", "get"]));
}

#[test]
fn helper_script_search_order() {
    assert_eq!(helper_script(true, true), "../nekroctl.py");
    assert_eq!(helper_script(false, true), "nekroctl.py");
    assert_eq!(
        helper_script(false, false),
        "/home/felipe/Documents/Github/nekro-sense/tools/nekroctl.py"
    );
}

#[test]
fn new_panel_queues_refresh() {
    let mut p = Panel::new();
    assert_eq!(p.status_msg, "Ready");
    assert_eq!(p.queued(), 7);
    let mut seen = Vec::new();
    while let Some(c) = p.start_next() {
        seen.push(c);
        p.finish_pending(false, "x".to_string());
    }
    assert_eq!(
        seen,
        vec![
            cmd(&["power", "list"]),
            cmd(&["power", "get"]),
            cmd(&["battery", "get"]),
            cmd(&["logo", "get"]),
            cmd(&["fan", "get"]),
            cmd(&["rgb", "per-zone-get"]),
            cmd(&["rgb", "effect-get"]),
        ]
    );
}

#[test]
fn dispatch_keeps_enqueue_order_and_one_in_flight() {
    let mut p = idle_panel();
    let sent: Vec<Vec<String>> = (0..5).map(|i| cmd(&["logo", &format!("x{}", i)])).collect();
    for c in &sent {
        p.run_cmd(c.clone());
    }
    let mut interpreted = Vec::new();
    while let Some(c) = p.start_next() {
        assert!(p.is_busy());
        assert!(p.start_next().is_none());
        let reply = format!("done {}", c[1]);
        p.finish_pending(true, reply.clone());
        assert_eq!(p.status_msg, reply);
        interpreted.push(c);
    }
    assert_eq!(interpreted, sent);
    assert!(!p.is_busy());
}

#[test]
fn failure_sets_error_status_only() {
    let mut p = idle_panel();
    run_one(&mut p, &["logo", "get"], false, "helper exploded");
    assert_eq!(p.status_msg, "helper exploded");
    assert!(p.is_error);
    assert_eq!(p.device.logo_color, "00ffcc");
    assert_eq!(p.queued(), 0);
}

#[test]
fn logo_get_parses_fields() {
    let mut p = idle_panel();
    p.device.logo_on = false;
    run_one(&mut p, &["logo", "get"], true, "00ffcc,75,1");
    assert_eq!(p.device.logo_color, "00ffcc");
    assert_eq!(p.device.logo_brightness, 75);
    assert!(p.device.logo_on);
}

#[test]
fn logo_get_malformed_keeps_state() {
    let mut p = idle_panel();
    run_one(&mut p, &["logo", "get"], true, "123456,40,0");
    run_one(&mut p, &["logo", "get"], true, "bad");
    assert_eq!(p.device.logo_color, "123456");
    assert_eq!(p.device.logo_brightness, 40);
    assert!(!p.device.logo_on);
    run_one(&mut p, &["logo", "get"], true, "abcdef,x,1");
    assert_eq!(p.device.logo_brightness, 100);
}

#[test]
fn effect_get_black_has_no_color() {
    let mut p = idle_panel();
    p.device.kb_effect_mode = EffectMode::Static;
    p.device.kb_effect_color = "ffffff".to_string();
    run_one(&mut p, &["rgb", "effect-get"], true, "3,4,80,1,0,0,0");
    assert_eq!(p.device.kb_effect_mode, EffectMode::Wave);
    assert_eq!(p.device.kb_effect_mode.name(), "wave");
    assert_eq!(p.device.kb_effect_speed, 4);
    assert_eq!(p.device.kb_effect_brightness, 80);
    assert_eq!(p.device.kb_effect_direction, 1);
    assert_eq!(p.device.kb_effect_color, "");
}

#[test]
fn effect_get_color_hex() {
    let mut p = idle_panel();
    run_one(&mut p, &["rgb", "effect-get"], true, "3,4,80,1,10,20,30");
    assert_eq!(p.device.kb_effect_color, "0a141e");
}

#[test]
fn effect_get_unknown_mode_and_defaults() {
    let mut p = idle_panel();
    p.device.kb_effect_mode = EffectMode::Neon;
    run_one(&mut p, &["rgb", "effect-get"], true, "9,x,y,z,1,2,3");
    assert_eq!(p.device.kb_effect_mode, EffectMode::Neon);
    assert_eq!(p.device.kb_effect_speed, 1);
    assert_eq!(p.device.kb_effect_brightness, 100);
    assert_eq!(p.device.kb_effect_direction, 2);
    assert_eq!(p.device.kb_effect_color, "010203");
    run_one(&mut p, &["rgb", "effect-get"], true, " 7 , 9 ,50,2,0,0,0");
    assert_eq!(p.device.kb_effect_mode, EffectMode::Twinkling);
    assert_eq!(p.device.kb_effect_speed, 9);
}

#[test]
fn fan_get_auto_and_manual() {
    let mut p = idle_panel();
    p.device.fans_cpu_val = 42;
    p.device.fans_gpu_auto = true;
    run_one(&mut p, &["fan", "get"], true, "0,75");
    assert!(p.device.fans_cpu_auto);
    assert!(!p.device.fans_gpu_auto);
    assert_eq!(p.device.fans_gpu_val, 75);
    assert_eq!(p.device.fans_cpu_val, 42);
    assert_eq!(p.device.fans_current, "0,75");
    assert_eq!(p.queued(), 0);
}

#[test]
fn fan_change_reads_back() {
    let mut p = idle_panel();
    run_one(&mut p, &["fan", "auto"], true, "fans set to auto");
    assert_eq!(p.status_msg, "fans set to auto");
    assert_eq!(p.start_next(), Some(cmd(&["fan", "get"])));
}

#[test]
fn power_set_queues_one_get_after_others() {
    let mut p = idle_panel();
    p.run_cmd(cmd(&["power", "set", "performance"]));
    let started = p.start_next().unwrap();
    assert_eq!(started, cmd(&["power", "set", "performance"]));
    p.run_cmd(cmd(&["logo", "get"]));
    p.run_cmd(cmd(&["fan", "get"]));
    p.finish_pending(true, "performance".to_string());
    assert_eq!(p.status_msg, "Power profile set to performance");
    assert!(!p.is_error);
    assert_eq!(p.queued(), 3);
    let mut rest = Vec::new();
    while let Some(c) = p.start_next() {
        rest.push(c);
        p.finish_pending(true, String::new());
    }
    assert_eq!(
        rest,
        vec![cmd(&["logo", "get"]), cmd(&["fan", "get"]), cmd(&["power", "get"])]
    );
}

#[test]
fn power_get_and_list() {
    let mut p = idle_panel();
    run_one(&mut p, &["power", "get"], true, "quiet");
    assert_eq!(p.device.power_current, "quiet");
    run_one(&mut p, &["power", "list"], true, "quiet  balanced\tperformance\n");
    assert_eq!(p.device.power_choices, cmd(&["quiet", "balanced", "performance"]));
    assert_eq!(p.status_msg, "Ready");
}

#[test]
fn battery_get_and_change() {
    let mut p = idle_panel();
    run_one(&mut p, &["battery", "get"], true, " 1 ");
    assert!(p.device.battery_limit);
    run_one(&mut p, &["battery", "get"], true, "0");
    assert!(!p.device.battery_limit);
    run_one(&mut p, &["battery", "on"], true, "limit on");
    assert_eq!(p.status_msg, "limit on");
    assert_eq!(p.start_next(), Some(cmd(&["battery", "get"])));
}

#[test]
fn per_zone_get_single_color_flag() {
    let mut p = idle_panel();
    run_one(&mut p, &["rgb", "per-zone-get"], true, "ff0000,00ff00,0000ff,ffffff, 60");
    assert_eq!(p.device.kb_colors, cmd(&["ff0000", "00ff00", "0000ff", "ffffff"]));
    assert_eq!(p.device.kb_brightness, 60);
    assert!(!p.device.kb_single_color);
    run_one(&mut p, &["rgb", "per-zone-get"], true, "abcdef,abcdef,abcdef,abcdef,x");
    assert!(p.device.kb_single_color);
    assert_eq!(p.device.kb_brightness, 100);
}

#[test]
fn unknown_domain_sets_status() {
    let mut p = idle_panel();
    run_one(&mut p, &["mystery"], true, "hello");
    assert_eq!(p.status_msg, "hello");
    run_one(&mut p, &["rgb", "effect"], true, "effect applied");
    assert_eq!(p.status_msg, "effect applied");
    assert_eq!(p.queued(), 0);
}

#[test]
fn hex_encode_decode() {
    assert_eq!(color_to_hex(Rgb { r: 0, g: 170, b: 255 }), "00aaff");
    assert_eq!(hex_to_color("00aaff"), Rgb { r: 0, g: 170, b: 255 });
    assert_eq!(hex_to_color("#00AAFF"), Rgb { r: 0, g: 170, b: 255 });
    assert_eq!(hex_to_color("00aaf"), Rgb { r: 255, g: 255, b: 255 });
    assert_eq!(hex_to_color("zz0010"), Rgb { r: 255, g: 0, b: 16 });
    assert_eq!(hex_to_color("+a+b+c"), Rgb { r: 10, g: 11, b: 12 });
    let c = Rgb { r: 18, g: 52, b: 86 };
    assert_eq!(hex_to_color(&color_to_hex(c)), c);
}

#[test]
fn command_builders() {
    let zones = cmd(&["ff0000", "00ff00", "0000ff", "ffffff"]);
    assert_eq!(
        per_zone_command(true, &zones, 70),
        cmd(&["rgb", "per-zone", "ff0000", "-b", "70"])
    );
    assert_eq!(
        per_zone_command(false, &zones, -5),
        cmd(&["rgb", "per-zone", "ff0000", "00ff00", "0000ff", "ffffff", "-b", "-5"])
    );
    assert_eq!(
        effect_command(EffectMode::Breathing, 3, 90, 1, ""),
        cmd(&["rgb", "effect", "breathing", "-s", "3", "-b", "90", "-d", "1"])
    );
    assert_eq!(
        effect_command(EffectMode::Zoom, 0, 100, 2, "00ff00"),
        cmd(&["rgb", "effect", "zoom", "-s", "0", "-b", "100", "-d", "2", "-c", "00ff00"])
    );
    assert_eq!(
        backlight_off_command(),
        cmd(&["rgb", "per-zone", "ffffff", "ffffff", "ffffff", "ffffff", "-b", "0"])
    );
    assert_eq!(
        logo_command("00ffcc", 55, false),
        cmd(&["logo", "set", "00ffcc", "-b", "55", "--off"])
    );
    assert_eq!(power_set_command("quiet"), cmd(&["power", "set", "quiet"]));
    assert_eq!(battery_command(true), cmd(&["battery", "on"]));
    assert_eq!(battery_command(false), cmd(&["battery", "off"]));
    assert_eq!(fan_command(false, true, 10, true, 20), cmd(&["fan", "auto"]));
    assert_eq!(fan_command(true, true, 10, false, 20), cmd(&["fan", "auto"]));
    assert_eq!(
        fan_command(false, true, 10, false, 20),
        cmd(&["fan", "set", "--cpu", "auto", "--gpu", "20"])
    );
    assert_eq!(
        fan_command(true, false, 35, true, 20),
        cmd(&["fan", "set", "--cpu", "35", "--gpu", "35"])
    );
}

fn drain(p: &mut Panel) -> Vec<Vec<String>> {
    let mut seen = Vec::new();
    while let Some(c) = p.start_next() {
        seen.push(c);
        p.finish_pending(false, String::new());
    }
    seen
}

#[test]
fn panel_actions_queue_change_and_read_back() {
    let mut p = idle_panel();
    p.device.kb_single_color = false;
    p.device.kb_brightness = 30;
    p.apply_per_zone();
    assert_eq!(
        drain(&mut p),
        vec![
            cmd(&["rgb", "per-zone", "00aaff", "00aaff", "00aaff", "00aaff", "-b", "30"]),
            cmd(&["rgb", "per-zone-get"]),
        ]
    );
    p.device.kb_effect_color = "ff00ff".to_string();
    p.apply_effect();
    assert_eq!(
        drain(&mut p),
        vec![
            cmd(&["rgb", "effect", "wave", "-s", "1", "-b", "100", "-d", "2", "-c", "ff00ff"]),
            cmd(&["rgb", "effect-get"]),
        ]
    );
    p.turn_off_backlight();
    assert_eq!(
        drain(&mut p),
        vec![
            cmd(&["rgb", "per-zone", "ffffff", "ffffff", "ffffff", "ffffff", "-b", "0"]),
            cmd(&["rgb", "per-zone-get"]),
        ]
    );
    p.apply_logo();
    assert_eq!(
        drain(&mut p),
        vec![cmd(&["logo", "set", "00ffcc", "-b", "100", "--on"]), cmd(&["logo", "get"])]
    );
    p.select_power_profile("balanced");
    p.set_battery_limit(false);
    p.device.fans_cpu_auto = false;
    p.device.fans_cpu_val = 60;
    p.apply_fans(true);
    assert_eq!(
        drain(&mut p),
        vec![
            cmd(&["power", "set", "balanced"]),
            cmd(&["battery", "off"]),
            cmd(&["fan", "set", "--cpu", "60", "--gpu", "60"]),
        ]
    );
}

#[test]
fn number_fields_follow_integer_parsing() {
    let mut p = idle_panel();
    run_one(&mut p, &["fan", "get"], true, "+30, -5");
    assert!(!p.device.fans_cpu_auto);
    assert_eq!(p.device.fans_cpu_val, 30);
    assert!(!p.device.fans_gpu_auto);
    assert_eq!(p.device.fans_gpu_val, 50);
    run_one(&mut p, &["fan", "get"], true, "99999999999,x");
    assert!(p.device.fans_cpu_auto);
    assert!(p.device.fans_gpu_auto);
    assert_eq!(p.device.fans_cpu_val, 30);
    run_one(&mut p, &["rgb", "effect-get"], true, "1,2,3,1,256,-1,+255");
    assert_eq!(p.device.kb_effect_mode, EffectMode::Breathing);
    assert_eq!(p.device.kb_effect_color, "0000ff");
    run_one(&mut p, &["logo", "get"], true, "aa00aa, 75,1 ");
    assert_eq!(p.device.logo_brightness, 100);
    assert!(p.device.logo_on);
}

#[test]
fn get_replies_with_extra_fields_are_ignored() {
    let mut p = idle_panel();
    run_one(&mut p, &["logo", "get"], true, "0000ff,75,1,9");
    assert_eq!(p.device.logo_color, "00ffcc");
    assert_eq!(p.device.logo_brightness, 100);
    run_one(&mut p, &["fan", "get"], true, "0,75,3");
    assert_eq!(p.device.fans_current, "unknown");
    assert!(p.device.fans_gpu_auto);
    assert_eq!(p.device.fans_gpu_val, 50);
    run_one(&mut p, &["fan", "get"], true, "bad");
    assert_eq!(p.device.fans_current, "unknown");
    run_one(&mut p, &["rgb", "per-zone-get"], true, "ff0000,00ff00,0000ff,ffffff,60,1");
    assert_eq!(p.device.kb_colors, cmd(&["00aaff", "00aaff", "00aaff", "00aaff"]));
    assert_eq!(p.device.kb_brightness, 100);
    run_one(&mut p, &["rgb", "effect-get"], true, "1,4,80,1,10,20,30,0");
    assert_eq!(p.device.kb_effect_mode, EffectMode::Wave);
    assert_eq!(p.device.kb_effect_color, "");
    run_one(&mut p, &["rgb", "effect-get"], true, "1,4,80,1,10,20");
    assert_eq!(p.device.kb_effect_speed, 1);
    assert_eq!(p.status_msg, "Ready");
}

#[test]
fn lowered_classifiers() {
    assert!(permission_denied_lowered(Some(3), ""));
    assert!(permission_denied_lowered(Some(1), "error: must be root"));
    assert!(!permission_denied_lowered(Some(1), "PERMISSION DENIED"));
    assert!(!permission_denied_lowered(None, "no such zone"));
    assert!(needs_password_lowered(Some(127), ""));
    assert!(needs_password_lowered(Some(1), "password is required"));
    assert!(!needs_password_lowered(Some(1), "A PASSWORD IS REQUIRED"));
    assert!(!needs_password_lowered(Some(1), "authentication"));
}

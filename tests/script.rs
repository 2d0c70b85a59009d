use mechaflt::script::{Script, Step};
use mechaflt::text::{split_lines, substitute, trim_exec};

fn cmds(s: &Script) -> Vec<&str> {
    s.commands.iter().map(|c| c.as_str()).collect()
}

#[test]
fn command_count_leaves_out_comments_blanks_and_version() {
    let text = "uuu_version 1.4.0\n# comment\n\nSDP: boot -f _flash.bin\n   \nFB: flash -raw2sparse all _image\n#another\nFB: done\n";
    let s = Script::new(text);
    let lines = split_lines(text);
    assert_eq!(lines.len(), 8);
    // two comments, two blank lines, one version line
    assert_eq!(s.commands.len(), 8 - (2 + 2 + 1));
    assert_eq!(
        cmds(&s),
        vec!["SDP: boot -f _flash.bin", "FB: flash -raw2sparse all _image", "FB: done"]
    );
    assert_eq!(s.uuu_version.as_deref(), Some("1.4.0"));
}

#[test]
fn empty_script_has_no_commands() {
    let s = Script::new("");
    assert!(s.commands.is_empty());
    assert!(s.uuu_version.is_none());
}

#[test]
fn crlf_lines_are_split() {
    let s = Script::new("a\r\nb\r\n\r\n");
    assert_eq!(cmds(&s), vec!["a", "b"]);
    assert_eq!(split_lines("x\n\ny").len(), 3);
    assert_eq!(split_lines("x\n").len(), 1);
}

#[test]
fn only_first_version_is_kept() {
    let s = Script::new("uuu_version\t2.0\nuuu_version 3.0\ncmd");
    assert_eq!(s.uuu_version.as_deref(), Some("2.0"));
    assert_eq!(cmds(&s), vec!["cmd"]);
}

#[test]
fn substitution_without_token_is_identity() {
    assert_eq!(substitute("FB: done", "_image", "disk.img"), "FB: done");
    assert_eq!(substitute("", "_image", "disk.img"), "");
    assert_eq!(substitute("abc", "", "x"), "abc");
}

#[test]
fn with_image_replaces_placeholder() {
    let s = Script::new("flash _image to device").with_image("disk.img");
    assert_eq!(cmds(&s), vec!["flash disk.img to device"]);
}

#[test]
fn substitution_replaces_every_occurrence() {
    assert_eq!(substitute("_image and _image", "_image", "a.img"), "a.img and a.img");
    assert_eq!(substitute("aaa", "aa", "b"), "ba");
}

#[test]
fn with_bootloader_replaces_placeholder() {
    let s = Script::new("SDP: boot -f _flash.bin\nFB: flash bootloader _flash.bin\nFB: done")
        .with_image("rootfs.img")
        .with_bootloader("u-boot.bin");
    assert_eq!(
        cmds(&s),
        vec!["SDP: boot -f u-boot.bin", "FB: flash bootloader u-boot.bin", "FB: done"]
    );
}

#[test]
fn run_stops_at_first_failure() {
    let s = Script::new("c1\nc2\nc3\nc4\nc5");
    let answers: Vec<Result<(), String>> = vec![
        Ok(()),
        Ok(()),
        Err("Command execution failed: c3".to_string()),
        Ok(()),
        Ok(()),
    ];
    let mut dispatched = Vec::new();
    let mut step = s.first_step();
    let outcome = loop {
        match step {
            Step::Dispatch(i) => {
                dispatched.push(s.commands[i].clone());
                step = s.next_step(i, answers[i].clone());
            }
            Step::Finished(r) => break r,
        }
    };
    assert_eq!(dispatched, vec!["c1", "c2", "c3"]);
    assert_eq!(outcome, Err("Command execution failed: c3".to_string()));
}

#[test]
fn run_of_empty_script_succeeds() {
    let s = Script::new("# nothing\n");
    assert!(matches!(s.first_step(), Step::Finished(Ok(()))));
}

#[test]
fn run_dispatches_all_in_order() {
    let s = Script::new("a\nb");
    assert!(matches!(s.first_step(), Step::Dispatch(0)));
    assert!(matches!(s.next_step(0, Ok(())), Step::Dispatch(1)));
    assert!(matches!(s.next_step(1, Ok(())), Step::Finished(Ok(()))));
}

#[test]
fn trim_removes_unicode_space() {
    assert_eq!(trim_exec("  \u{3000}exit\t\n"), "exit");
    assert_eq!(trim_exec(" \t "), "");
}

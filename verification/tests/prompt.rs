use ps1::git::{FilesStatus, RefName, Status, UpstreamStatus};
use ps1::ansi::Color;
use ps1::prompt::{
    assemble, exit_code_segment, format_opts, input_line, is_success, main_line, paint, prompt,
    GitStatus,
};

/// `text` between the codes of a style, as zsh takes it.
fn z(code: &str, text: &str) -> String {
    format!("%{{\u{1b}[{}m%}}{}%{{\u{1b}[0m%}}", code, text)
}

fn on_main(uncommitted: u32, untracked: u32, upstream: Option<(u32, u32)>) -> Status {
    Status {
        ref_name: RefName::Branch("main".to_string()),
        files: FilesStatus { uncommitted_files: uncommitted, untracked_files: untracked },
        upstream: upstream
            .map(|(a, b)| UpstreamStatus { commits_ahead: a, commits_behind: b }),
    }
}

#[test]
fn clean_branch_shows_a_check_mark() {
    assert_eq!(
        GitStatus(on_main(0, 0, None)).to_string(),
        "%{\u{1b}[1;34m%}main%{\u{1b}[0m%}%{\u{1b}[1;32m%} ✓%{\u{1b}[0m%}"
    );
}

#[test]
fn dirty_branch_shows_every_count() {
    assert_eq!(
        GitStatus(on_main(2, 3, Some((4, 5)))).to_string(),
        format!(
            "{}{}{}{}{}",
            z("1;34", "main"),
            z("1;31", " ±2"),
            z("31", " ▲4"),
            z("31", " ▼5"),
            z("33", " ❖3")
        )
    );
}

#[test]
fn counts_of_zero_are_left_out() {
    assert_eq!(
        GitStatus(on_main(0, 0, Some((0, 0)))).to_string(),
        format!("{}{}", z("1;34", "main"), z("1;32", " ✓"))
    );
    assert_eq!(
        GitStatus(on_main(0, 0, Some((1, 0)))).to_string(),
        format!("{}{}{}", z("1;34", "main"), z("1;32", " ✓"), z("31", " ▲1"))
    );
    assert_eq!(
        GitStatus(on_main(0, 0, Some((0, 12)))).to_string(),
        format!("{}{}{}", z("1;34", "main"), z("1;32", " ✓"), z("31", " ▼12"))
    );
    assert_eq!(
        GitStatus(on_main(0, 1, None)).to_string(),
        format!("{}{}{}", z("1;34", "main"), z("1;32", " ✓"), z("33", " ❖1"))
    );
    assert_eq!(
        GitStatus(on_main(u32::MAX, 0, None)).to_string(),
        format!("{}{}", z("1;34", "main"), z("1;31", " ±4294967295"))
    );
}

#[test]
fn commit_is_shown_in_yellow() {
    let status = Status {
        ref_name: RefName::Hash("0123456789abcdef0123456789abcdef01234567".to_string()),
        files: FilesStatus::default(),
        upstream: None,
    };
    assert_eq!(
        GitStatus(status).to_string(),
        format!(
            "{}{}",
            z("1;33", "0123456789abcdef0123456789abcdef01234567"),
            z("1;32", " ✓")
        )
    );
}

#[test]
fn paint_writes_text_out_between_its_codes() {
    assert_eq!(paint(Color::Yellow.bold(), "42.23s"), "%{\u{1b}[1;33m%}42.23s%{\u{1b}[0m%}");
    assert_eq!(paint(Color::White.normal(), ""), z("37", ""));
    assert_eq!(paint(Color::Cyan.normal(), "⎡"), z("36", "⎡"));
}

#[test]
fn each_part_that_is_there_gets_one_space() {
    let a = Some("a".to_string());
    let b = Some("bc".to_string());
    assert_eq!(format_opts(&None, &None), "");
    assert_eq!(format_opts(&a, &None), " a");
    assert_eq!(format_opts(&None, &b), " bc");
    assert_eq!(format_opts(&a, &b), " a bc");
    assert_eq!(format_opts(&Some(String::new()), &None), " ");
}

#[test]
fn only_zero_is_success() {
    assert!(is_success("0"));
    assert!(!is_success("1"));
    assert!(!is_success(""));
    assert!(!is_success("00"));
    assert!(!is_success("-0"));
    assert!(!is_success("０"));
}

#[test]
fn failure_is_told_with_its_exit_code() {
    assert_eq!(exit_code_segment("0"), "");
    assert_eq!(exit_code_segment("1"), "💥 %{\u{1b}[1;31m%}[1]%{\u{1b}[0m%}");
    assert_eq!(exit_code_segment("130"), format!("💥 {}", z("1;31", "[130]")));
    assert_eq!(exit_code_segment(""), format!("💥 {}", z("1;31", "[]")));
}

#[test]
fn main_line_without_parts_has_no_space_before_the_bracket() {
    assert_eq!(
        main_line("box", "~/src", &None, &None),
        "%{\u{1b}[37m%}⎡%{\u{1b}[0m%} %{\u{1b}[1;32m%}box%{\u{1b}[0m%} \
         %{\u{1b}[32m%}~/src%{\u{1b}[0m%}%{\u{1b}[37m%}⎤%{\u{1b}[0m%}"
    );
}

#[test]
fn main_line_shows_duration_then_git_status() {
    let duration = Some("1.25s".to_string());
    let git = Some(GitStatus(on_main(0, 0, None)).to_string());
    let lead = format!("{} {} {}", z("37", "⎡"), z("1;32", "box"), z("32", "~/src"));
    let close = z("37", "⎤");
    assert_eq!(
        main_line("box", "~/src", &duration, &git),
        format!(
            "{} {} {}{}{}",
            lead,
            z("1;33", "1.25s"),
            z("1;34", "main"),
            z("1;32", " ✓"),
            close
        )
    );
    assert_eq!(
        main_line("box", "~/src", &duration, &None),
        format!("{} {}{}", lead, z("1;33", "1.25s"), close)
    );
    assert_eq!(
        main_line("box", "~/src", &None, &git),
        format!("{} {}{}{}", lead, z("1;34", "main"), z("1;32", " ✓"), close)
    );
}

#[test]
fn root_types_after_a_hash() {
    assert_eq!(
        input_line(true),
        "%{\u{1b}[37m%}⎣%{\u{1b}[0m%} %{\u{1b}[1;31m%}#%{\u{1b}[0m%}\u{a0}\u{a0}"
    );
    assert_eq!(
        input_line(false),
        "%{\u{1b}[37m%}⎣%{\u{1b}[0m%} %{\u{1b}[31m%}⭑%{\u{1b}[0m%}\u{a0}\u{a0}"
    );
}

#[test]
fn prompt_after_success() {
    assert_eq!(
        assemble("box", "~/src", "0", &None, &None, false),
        format!(
            "\n{} {} {}{}\n{} {}\u{a0}\u{a0}",
            z("37", "⎡"),
            z("1;32", "box"),
            z("32", "~/src"),
            z("37", "⎤"),
            z("37", "⎣"),
            z("31", "⭑")
        )
    );
}

#[test]
fn prompt_after_failure_begins_with_the_exit_code() {
    let out = assemble("box", "~/src", "127", &None, &None, true);
    assert_eq!(
        out,
        format!(
            "💥 {}\n{} {} {}{}\n{} {}\u{a0}\u{a0}",
            z("1;31", "[127]"),
            z("37", "⎡"),
            z("1;32", "box"),
            z("32", "~/src"),
            z("37", "⎤"),
            z("37", "⎣"),
            z("1;31", "#")
        )
    );
    let lines: Vec<&str> = out.split('\n').collect();
    assert_eq!(lines.len(), 3);
    assert_eq!(lines[0], exit_code_segment("127"));
    assert_eq!(lines[1], main_line("box", "~/src", &None, &None));
    assert_eq!(lines[2], input_line(true));
}

#[test]
fn prompt_is_made_of_its_parts() {
    let duration = Some("D".to_string());
    let git = Some("G".to_string());
    for code in ["0", "1", "255"] {
        for is_root in [false, true] {
            assert_eq!(
                assemble("h", "c", code, &duration, &git, is_root),
                format!(
                    "{}\n{}\n{}",
                    exit_code_segment(code),
                    main_line("h", "c", &duration, &git),
                    input_line(is_root)
                )
            );
        }
    }
}

#[test]
fn whole_prompt_from_what_was_found() {
    let out = prompt(
        "1",
        "box",
        "/home/me/src/project",
        Some("/home/me"),
        Some(42_230),
        Some(on_main(2, 3, Some((1, 0)))),
        1000,
    );
    assert_eq!(
        out,
        format!(
            "💥 {}\n{} {} {} {} {}{}{}{}{}\n{} {}\u{a0}\u{a0}",
            z("1;31", "[1]"),
            z("37", "⎡"),
            z("1;32", "box"),
            z("32", "~/s/project"),
            z("1;33", "42.23s"),
            z("1;34", "main"),
            z("1;31", " ±2"),
            z("31", " ▲1"),
            z("33", " ❖3"),
            z("37", "⎤"),
            z("37", "⎣"),
            z("31", "⭑")
        )
    );
}

#[test]
fn whole_prompt_for_root_outside_a_repository() {
    let out = prompt("0", "box", "/etc/ssh", None, None, None, 0);
    assert_eq!(out, assemble("box", "/e/ssh", "0", &None, &None, true));
    assert!(out.ends_with(&format!(" {}\u{a0}\u{a0}", z("1;31", "#"))));
}

#[test]
fn directory_is_cut_short_as_tico_does() {
    let cases = [
        ("/home/me/src/project", Some("/home/me")),
        ("/home/me", Some("/home/me")),
        ("/usr/local/share/.config/zsh", None),
        ("/", None),
    ];
    for (cwd, home) in cases {
        let short = tico::tico(cwd, home);
        assert_eq!(
            prompt("0", "box", cwd, home, None, None, 1),
            assemble("box", &short, "0", &None, &None, false)
        );
    }
    assert_ne!(tico::tico("/home/me/src/project", None), "/home/me/src/project");
}

/// What zsh counts of `s`: everything but what stands between `%{` and `%}`.
fn visible(s: &str) -> String {
    let chars: Vec<char> = s.chars().collect();
    let mut out = String::new();
    let mut hidden = false;
    let mut i = 0;
    while i < chars.len() {
        let mark = if hidden { '}' } else { '{' };
        if chars[i] == '%' && i + 1 < chars.len() && chars[i + 1] == mark {
            hidden = !hidden;
            i += 2;
        } else {
            if !hidden {
                out.push(chars[i]);
            }
            i += 1;
        }
    }
    out
}

#[test]
fn zsh_counts_the_prompt_as_it_shows() {
    let out = prompt(
        "1",
        "box",
        "/home/me/src/project",
        Some("/home/me"),
        Some(42_230),
        Some(on_main(2, 3, Some((1, 0)))),
        1000,
    );
    assert_eq!(
        visible(&out),
        "💥 [1]\n⎡ box ~/s/project 42.23s main ±2 ▲1 ❖3⎤\n⎣ ⭑\u{a0}\u{a0}"
    );
    assert!(!visible(&out).contains('\u{1b}'));
    let out = prompt("0", "100%", "/tmp/50%", None, None, Some(on_main(0, 0, None)), 0);
    assert_eq!(visible(&out), "\n⎡ 100% /t/50% main ✓⎤\n⎣ #\u{a0}\u{a0}");
}

#[test]
fn git_status_shows_as_plain_text() {
    assert_eq!(visible(&GitStatus(on_main(0, 0, None)).to_string()), "main ✓");
    assert_eq!(
        visible(&GitStatus(on_main(12, 7, Some((3, 4)))).to_string()),
        "main ±12 ▲3 ▼4 ❖7"
    );
    assert_eq!(visible(&main_line("h", "c", &Some("230ms".to_string()), &None)), "⎡ h c 230ms⎤");
}

use std::sync::Arc;
use rk3399os::kernel::boot::get_aarch;
use rk3399os::kernel::context::StackFrame;
use rk3399os::kernel::dump::memory_dump;
use rk3399os::kernel::process::{Process, ProcessControlBlock, ProcessStatus};
use rk3399os::kernel::sched::{RRScheduler, Scheduler};
use rk3399os::kernel::shell::{shell_show_commands, Shell, ShellAction};

#[test]
fn stack_frame_starts_clean() {
    let f = StackFrame::new(0x8_0000, 0x10_0000);
    assert_eq!(f.elr, 0x8_0000);
    assert_eq!(f.sp, 0x10_0000);
    assert_eq!(f.spsr, 0);
    assert!(f.gpr.iter().all(|&r| r == 0));
}

#[test]
fn control_block_points_at_stack_top() {
    let pcb = ProcessControlBlock::new(0x1234, 0x4000, 0x1000);
    assert_eq!(pcb.status, ProcessStatus::Init);
    assert_eq!(pcb.context.elr, 0x1234);
    assert_eq!(pcb.context.sp, 0x5000);
    assert_eq!(pcb.stack_start, 0x4000);
    assert_eq!(pcb.stack_size, 0x1000);
    assert_eq!(pcb.context.reserved, 0);
    assert_eq!(pcb.context.spsr, 0);
}

#[test]
fn process_name_is_padded() {
    let mut p = Process::new("shell", 0x100, 0x2000, 0x400);
    assert_eq!(&p.show_name(), b"shell\0\0\0\0\0");
    let full = Process::new("0123456789", 0, 0, 0);
    assert_eq!(&full.name, b"0123456789");
    let pcb = p.context_access();
    pcb.status = ProcessStatus::Ready;
    assert_eq!(p.pcb.status, ProcessStatus::Ready);
    assert_eq!(p.pcb.context.sp, 0x2400);
}

#[test]
fn status_names() {
    assert_eq!(ProcessStatus::Init.name(), "Init");
    assert_eq!(ProcessStatus::Ready.name(), "Ready");
    assert_eq!(ProcessStatus::Sleep.name(), "Suspended");
    assert_eq!(ProcessStatus::Terminal.name(), "Terminal");
}

#[test]
fn round_robin_is_first_in_first_out() {
    let mut s = RRScheduler::new();
    assert!(s.pop().is_none());
    assert!(s.find(0).is_none());
    assert!(s.find_by_name("a").is_none());
    s.push(Arc::new(Process::new("a", 1, 0, 0)));
    s.push(Arc::new(Process::new("b", 2, 0, 0)));
    s.schedule();
    s.push(Arc::new(Process::new("c", 3, 0, 0)));
    let names = s.ready_names();
    assert_eq!(names.len(), 3);
    assert_eq!(names[2][0], b'c');
    assert_eq!(s.run().pcb.context.elr, 1);
    assert_eq!(s.pop().unwrap().pcb.context.elr, 2);
    assert_eq!(s.pop().unwrap().pcb.context.elr, 3);
    assert!(s.pop().is_none());
}

#[test]
fn shell_runs_named_commands() {
    let mut sh = Shell::new();
    assert_eq!(sh.step('m'), ShellAction::Echo('m'));
    assert_eq!(sh.step('e'), ShellAction::Echo('e'));
    assert_eq!(sh.step('m'), ShellAction::Echo('m'));
    assert_eq!(sh.step('\n'), ShellAction::Run(1));
    assert!(sh.input.is_empty());
    for c in "lsof".chars() {
        sh.step(c);
    }
    assert_eq!(sh.step('\n'), ShellAction::Run(2));
    for c in "cmd".chars() {
        sh.step(c);
    }
    assert_eq!(sh.step('\n'), ShellAction::Run(0));
}

#[test]
fn shell_reports_unknown_and_blank_lines() {
    let mut sh = Shell::new();
    assert_eq!(sh.step('\n'), ShellAction::Blank);
    sh.step('l');
    sh.step('s');
    assert_eq!(sh.step('\n'), ShellAction::NotFound(vec!['l', 's']));
    assert!(sh.input.is_empty());
    for c in "cmdx".chars() {
        sh.step(c);
    }
    assert_eq!(sh.step('\n'), ShellAction::NotFound("cmdx".chars().collect()));
}

#[test]
fn shell_lists_commands() {
    let text: String = shell_show_commands().into_iter().collect();
    assert_eq!(text, "\ncmd mem lsof ");
}

#[test]
fn memory_dump_layout() {
    let data: Vec<u8> = (0u8..10).map(|i| i * 0x11).collect();
    let text: String = memory_dump(0x8_0000, &data).into_iter().collect();
    assert_eq!(
        text,
        "\n0x80000 00 11 22 33 44 55 66 77 \n0x80008 88 99 \n"
    );
    let none: String = memory_dump(0x10, &[]).into_iter().collect();
    assert_eq!(none, "\n");
    let one: String = memory_dump(0xABC, &[0x0F]).into_iter().collect();
    assert_eq!(one, "\n0xabc 0f \n");
}

#[test]
fn aarch_name() {
    assert_eq!(get_aarch(), if std::mem::size_of::<usize>() == 8 { "Aarch64" } else { "AArch32" });
}

#[test]
fn shell_typed_line_echoes_each_char_then_answers_once() {
    for (line, answer) in [
        ("mem", ShellAction::Run(1)),
        ("lsoff", ShellAction::NotFound("lsoff".chars().collect())),
        ("", ShellAction::Blank),
    ] {
        let mut sh = Shell::new();
        for (i, c) in line.chars().enumerate() {
            assert_eq!(sh.step(c), ShellAction::Echo(c));
            assert_eq!(sh.input, line.chars().take(i + 1).collect::<Vec<char>>());
        }
        assert_eq!(sh.step('\n'), answer);
        assert!(sh.input.is_empty());
    }
}

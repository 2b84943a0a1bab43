use midas::{
    Application, Color, ColorCode, GraphicsAction, GraphicsNav, InputTarget, KeyInput, LineBuffer,
    PageRegistry, QemuExitCode, RawInput, RouteAction, Shell, ShellEffect, add_command, add_page,
    calculate_centered_rect, centered_text_x, centered_text_y, generate_rnd, generate_rnd_rng,
    get_command_prefix, handle_action, init, is_active, process_command, register_key,
    rename_device, route_key, show_intro, uninit, vga_graphics, Command, Page,
};

#[test]
fn router_discards_without_a_consumer() {
    assert_eq!(route_key(InputTarget::Nobody, KeyInput::Char('a')), RouteAction::Discard);
    assert_eq!(
        route_key(InputTarget::Nobody, KeyInput::Raw(RawInput::ArrowUp)),
        RouteAction::Discard
    );
}

#[test]
fn router_forwards_verbatim_to_application_and_graphics() {
    assert_eq!(
        route_key(InputTarget::Application, KeyInput::Char('q')),
        RouteAction::ToApplication(KeyInput::Char('q'))
    );
    assert_eq!(
        route_key(InputTarget::GraphicMode, KeyInput::Raw(RawInput::ArrowLeft)),
        RouteAction::ToGraphics(KeyInput::Raw(RawInput::ArrowLeft))
    );
}

#[test]
fn router_terminal_arms() {
    assert_eq!(route_key(InputTarget::Terminal, KeyInput::Char('\n')), RouteAction::SubmitLine);
    assert_eq!(route_key(InputTarget::Terminal, KeyInput::Char('\u{08}')), RouteAction::EraseChar);
    assert_eq!(
        route_key(InputTarget::Terminal, KeyInput::Char('z')),
        RouteAction::InsertEcho('z')
    );
    assert_eq!(
        route_key(InputTarget::Terminal, KeyInput::Raw(RawInput::Backspace)),
        RouteAction::InsertRaw(RawInput::Backspace)
    );
}

#[test]
fn scenario_newline_submits_line_and_redraws_prompt() {
    let mut shell = Shell::new();
    let mut target = InputTarget::Nobody;
    init(&mut shell, &mut target);
    assert_eq!(target, InputTarget::Terminal);
    assert!(is_active(&shell));
    // type "help"
    for c in ['h', 'e', 'l', 'p'] {
        let action = route_key(target, KeyInput::Char(c));
        assert_eq!(action, RouteAction::InsertEcho(c));
        assert_eq!(handle_action(&mut shell, action), ShellEffect::Echo(c));
    }
    // the newline is routed as a submit, never echoed
    let action = route_key(target, KeyInput::Char('\n'));
    assert_eq!(action, RouteAction::SubmitLine);
    let effect = handle_action(&mut shell, action);
    match effect {
        ShellEffect::PromptRedraw(Some(parsed)) => {
            assert_eq!(parsed.name, b"help".to_vec());
            assert!(parsed.args.is_empty());
            assert_eq!(parsed.command, Some(0));
        },
        other => panic!("expected a prompt redraw with the parsed line, got {:?}", other),
    }
}

#[test]
fn submitted_arguments_are_split_at_spaces() {
    let mut shell = Shell::new();
    let mut target = InputTarget::Nobody;
    init(&mut shell, &mut target);
    for c in ['r', 'd', 'v', 'c', ' ', 'b', 'o', 'x'] {
        handle_action(&mut shell, route_key(target, KeyInput::Char(c)));
    }
    match handle_action(&mut shell, RouteAction::SubmitLine) {
        ShellEffect::PromptRedraw(Some(parsed)) => {
            assert_eq!(parsed.name, b"rdvc".to_vec());
            assert_eq!(parsed.args, vec![b"box".to_vec()]);
            assert_eq!(parsed.command, Some(6));
        },
        other => panic!("unexpected effect {:?}", other),
    }
}

#[test]
fn unknown_command_is_reported_as_missing() {
    let mut shell = Shell::new();
    let mut target = InputTarget::Nobody;
    init(&mut shell, &mut target);
    for c in ['n', 'o', 'p', 'e'] {
        handle_action(&mut shell, route_key(target, KeyInput::Char(c)));
    }
    match handle_action(&mut shell, RouteAction::SubmitLine) {
        ShellEffect::PromptRedraw(Some(parsed)) => {
            assert_eq!(parsed.name, b"nope".to_vec());
            assert_eq!(parsed.command, None);
        },
        other => panic!("unexpected effect {:?}", other),
    }
}

#[test]
fn empty_line_submits_to_nothing() {
    let mut shell = Shell::new();
    let mut target = InputTarget::Nobody;
    init(&mut shell, &mut target);
    assert_eq!(handle_action(&mut shell, RouteAction::SubmitLine), ShellEffect::PromptRedraw(None));
}

#[test]
fn erase_deletes_the_last_character() {
    let mut shell = Shell::new();
    let mut target = InputTarget::Nobody;
    init(&mut shell, &mut target);
    for c in ['v', 'g', 'a', 'x'] {
        handle_action(&mut shell, route_key(target, KeyInput::Char(c)));
    }
    assert_eq!(handle_action(&mut shell, RouteAction::EraseChar), ShellEffect::EraseEcho);
    match handle_action(&mut shell, RouteAction::SubmitLine) {
        ShellEffect::PromptRedraw(Some(parsed)) => {
            assert_eq!(parsed.name, b"vga".to_vec());
            assert_eq!(parsed.command, Some(8));
        },
        other => panic!("unexpected effect {:?}", other),
    }
    // with nothing typed, an erase shows nothing
    assert_eq!(handle_action(&mut shell, RouteAction::EraseChar), ShellEffect::Quiet);
}

#[test]
fn buffered_backspace_bytes_fold_at_submission() {
    let mut buffer = LineBuffer::new();
    buffer.add_char(KeyInput::Char('h'));
    buffer.add_char(KeyInput::Char('x'));
    // this character's low byte is the backspace byte: it is stored as a
    // byte here and only erases the 'x' when the line is read back
    buffer.add_char(KeyInput::Char('\u{0108}'));
    buffer.add_char(KeyInput::Char('i'));
    assert_eq!(buffer.byte_at(0), b'h');
    assert_eq!(buffer.byte_at(1), b'x');
    assert_eq!(buffer.byte_at(2), 8);
    assert_eq!(buffer.byte_at(3), b'i');
    let mut shell = Shell::new();
    let mut target = InputTarget::Nobody;
    init(&mut shell, &mut target);
    for c in ['h', 'x', '\u{0108}', 'i'] {
        handle_action(&mut shell, route_key(target, KeyInput::Char(c)));
    }
    match handle_action(&mut shell, RouteAction::SubmitLine) {
        ShellEffect::PromptRedraw(Some(parsed)) => {
            assert_eq!(parsed.name, b"hi".to_vec());
            assert_eq!(parsed.command, None);
        },
        other => panic!("unexpected effect {:?}", other),
    }
}

#[test]
fn full_line_buffer_ignores_further_keys() {
    let mut buffer = LineBuffer::new();
    // the buffer holds 511 typed bytes; the last slot stays the terminator
    for _ in 0..600 {
        buffer.add_char(KeyInput::Char('a'));
    }
    assert_eq!(buffer.byte_at(510), b'a');
    assert_eq!(buffer.byte_at(511), 0);
    buffer.add_char(KeyInput::Char('b'));
    assert_eq!(buffer.byte_at(510), b'a');
    assert_eq!(buffer.byte_at(511), 0);
}

#[test]
fn prompt_carries_the_device_name() {
    let mut shell = Shell::new();
    assert_eq!(get_command_prefix(&shell), "qemu@midas> ".to_string());
    rename_device(&mut shell, "box");
    assert_eq!(get_command_prefix(&shell), "box@midas> ".to_string());
}

#[test]
fn focus_follows_activation_and_release() {
    let mut shell = Shell::new();
    let mut target = InputTarget::Nobody;
    show_intro(&mut shell, &mut target, false);
    assert_eq!(target, InputTarget::Terminal);
    assert!(is_active(&shell));
    uninit(&mut shell, &mut target);
    assert_eq!(target, InputTarget::Nobody);
    assert!(!is_active(&shell));
    vga_graphics(&mut shell, &mut target);
    assert_eq!(target, InputTarget::GraphicMode);
    assert!(!is_active(&shell));
}

#[test]
fn commands_register_in_order() {
    let mut shell = Shell::new();
    let mut target = InputTarget::Nobody;
    add_command(&mut shell, Command::new("extra", "An extra command"));
    init(&mut shell, &mut target);
    for c in ['e', 'x', 't', 'r', 'a'] {
        handle_action(&mut shell, route_key(target, KeyInput::Char(c)));
    }
    match handle_action(&mut shell, RouteAction::SubmitLine) {
        ShellEffect::PromptRedraw(Some(parsed)) => assert_eq!(parsed.command, Some(0)),
        other => panic!("unexpected effect {:?}", other),
    }
}

#[test]
fn graphics_navigation_wraps_both_ways() {
    let mut pages = PageRegistry::new();
    add_page(&mut pages, Page::new());
    add_page(&mut pages, Page::new());
    add_page(&mut pages, Page::new());
    let mut nav = GraphicsNav::new();
    // left from the first color wraps to the last
    assert_eq!(
        register_key(&mut nav, &pages, KeyInput::Raw(RawInput::ArrowLeft)),
        GraphicsAction::Redraw
    );
    assert_eq!(nav.color_index, 15);
    // right from the last wraps back to the first
    assert_eq!(
        register_key(&mut nav, &pages, KeyInput::Raw(RawInput::ArrowRight)),
        GraphicsAction::Redraw
    );
    assert_eq!(nav.color_index, 0);
    // 'c' also cycles the color
    assert_eq!(register_key(&mut nav, &pages, KeyInput::Char('c')), GraphicsAction::Redraw);
    assert_eq!(nav.color_index, 1);
    // up from the first page wraps to the last of the three
    assert_eq!(
        register_key(&mut nav, &pages, KeyInput::Raw(RawInput::ArrowUp)),
        GraphicsAction::Redraw
    );
    assert_eq!(nav.page, 2);
    // down from the last wraps back to the first
    assert_eq!(
        register_key(&mut nav, &pages, KeyInput::Raw(RawInput::ArrowDown)),
        GraphicsAction::Redraw
    );
    assert_eq!(nav.page, 0);
    // 'x' leaves graphics mode without touching the state
    assert_eq!(register_key(&mut nav, &pages, KeyInput::Char('x')), GraphicsAction::ExitToText);
    assert_eq!(nav.color_index, 1);
    assert_eq!(nav.page, 0);
    // anything else is ignored
    assert_eq!(register_key(&mut nav, &pages, KeyInput::Char('q')), GraphicsAction::Ignore);
}

#[test]
fn application_lifecycle() {
    let mut app = Application::new("demo".to_string());
    assert!(!app.running);
    app.run();
    assert!(app.running);
    app.stop();
    assert!(!app.running);
    let mut fixed = Application::new_unrunnable("none".to_string());
    fixed.run();
    assert!(!fixed.running);
    let mut target = InputTarget::Nobody;
    let installed = fixed.init(&mut target);
    assert_eq!(target, InputTarget::Application);
    assert_eq!(installed.name, "none".to_string());
}

#[test]
fn colors_match_their_palette_positions() {
    assert_eq!(Color::from_u32(14), Color::Yellow);
    assert_eq!(Color::from_u32(0), Color::Black);
    assert_eq!(Color::from_u32(15), Color::White);
    assert_eq!(ColorCode::new(Color::White, Color::Black).0, 15);
    assert_eq!(ColorCode::new(Color::Black, Color::Blue).0, 16);
    assert_eq!(ColorCode::new(Color::Yellow, Color::Red).0, 4 * 16 + 14);
}

#[test]
fn mixed_entropy_and_ranges() {
    assert_eq!(generate_rnd(5, 3), 6);
    assert_eq!(generate_rnd(0, 0), 0);
    assert_eq!(generate_rnd_rng(10, 20, 7, 2), 10 + ((7u64 ^ 2) % 10));
    assert_eq!(generate_rnd_rng(20, 10, 7, 2), 0);
}

#[test]
fn qemu_exit_codes() {
    assert_eq!(QemuExitCode::Success.code(), 0x10);
    assert_eq!(QemuExitCode::Failed.code(), 0x11);
}

#[test]
fn centered_geometry() {
    assert_eq!(calculate_centered_rect((550, 300)), (45, 90));
    assert_eq!(centered_text_x(45, 595, 10), 320 - 40);
    assert_eq!(centered_text_y(90, 390), 240 - 8);
}

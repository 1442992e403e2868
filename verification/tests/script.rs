use gers::script::{
    log_wren_error, BorrowError, CallHandle, CallState, ForeignCell, GersError, Hook, HookSetup,
    ScriptCommand, ScriptReply, SetupStep, WrenCompileError, WrenError, WrenErrorKind,
    WrenStackFrame,
};

#[test]
fn second_mutable_borrow_is_refused() {
    let mut cell = ForeignCell::new(5u32);
    assert_eq!(cell.try_borrow_mut(), Ok(()));
    assert_eq!(cell.try_borrow_mut(), Err(BorrowError::AlreadyMutablyBorrowed));
    assert_eq!(cell.try_borrow(), Err(BorrowError::AlreadyMutablyBorrowed));
    assert_eq!(*cell.get(), 5);
    assert_eq!(cell.replace(6), 5);
    cell.release_mut();
    assert_eq!(cell.try_borrow_mut(), Ok(()));
    assert_eq!(*cell.get(), 6);
}

#[test]
fn shared_borrows_exclude_the_mutable_one() {
    let mut cell = ForeignCell::new("value".to_string());
    assert_eq!(cell.try_borrow(), Ok(()));
    assert_eq!(cell.try_borrow(), Ok(()));
    assert_eq!(cell.get(), "value");
    assert_eq!(cell.try_borrow_mut(), Err(BorrowError::AlreadyBorrowed));
    cell.release();
    assert_eq!(cell.try_borrow_mut(), Err(BorrowError::AlreadyBorrowed));
    cell.release();
    assert_eq!(cell.try_borrow_mut(), Ok(()));
    cell.release_mut();
    assert_eq!(cell.into_inner(), "value");
}

#[test]
fn call_handle_goes_through_its_states() {
    let mut handle = CallHandle::new(Hook::Update);
    assert_eq!(handle.get_state(), CallState::Unresolved);
    assert!(!handle.is_live());
    handle.compiled();
    assert_eq!(handle.get_state(), CallState::Compiled);
    assert!(!handle.is_live());
    handle.leaked(42);
    assert_eq!(handle.get_state(), CallState::Leaked);
    assert!(handle.is_live());
    assert_eq!(handle.get_token(), 42);
    assert_eq!(handle.release(), ScriptCommand::Release(42));
    assert_eq!(handle.get_state(), CallState::Released);
    assert!(!handle.is_live());
    assert_eq!(handle.get_hook(), Hook::Update);
}

#[test]
fn hook_targets() {
    let init = Hook::Init.target();
    assert_eq!(
        (init.module, init.class, init.getter, init.signature),
        ("game", "Game", Some("handler_"), "init()")
    );
    let delta = Hook::SetDeltaTime.target();
    assert_eq!(
        (delta.module, delta.class, delta.getter, delta.signature),
        ("game", "Game", None, "deltaTime_=(_)")
    );
    assert_eq!(Hook::Update.target().signature, "process_()");
    assert_eq!(Hook::Draw.target().signature, "draw()");
    let pos = Hook::MouseSetPos.target();
    assert_eq!((pos.module, pos.class, pos.signature), ("gers.input", "Mouse", "setPos_(_,_,_,_)"));
    assert_eq!(Hook::MousePushButton.target().signature, "pushButton_(_,_)");
    let press = Hook::KeyPress.target();
    assert_eq!(
        (press.module, press.class, press.signature),
        ("gers.input", "Keyboard", "setKeyPress_(_)")
    );
    assert_eq!(Hook::KeyRelease.target().signature, "setKeyRelease_(_)");
    assert_eq!(Hook::PushChar.target().signature, "pushChar_(_)");
    let viewport = Hook::SetViewport.target();
    assert_eq!(
        (viewport.module, viewport.class, viewport.getter, viewport.signature),
        ("gers.graphics", "GraphicDevice", Some("instance"), "setViewport_(_,_)")
    );
    assert_eq!(Hook::Maintain.target().signature, "maintain()");
}

fn failure() -> WrenError {
    WrenError { display: "variable not found".to_string(), kind: WrenErrorKind::Other }
}

#[test]
fn hook_setup_pins_every_hook_in_order() {
    let mut setup = HookSetup::new(vec![Hook::Init, Hook::Draw]);
    let mut log = vec![];
    let mut reply = ScriptReply::Nothing;
    let mut token = 10;
    let handles = loop {
        match setup.advance(reply) {
            SetupStep::Call(command) => {
                log.push(command);
                reply = match command {
                    ScriptCommand::Compile(_) => ScriptReply::Done,
                    ScriptCommand::Leak(_) => {
                        token += 1;
                        ScriptReply::Pinned(token)
                    }
                    _ => ScriptReply::Nothing,
                };
            }
            SetupStep::Finished(result) => break result.unwrap(),
        }
    };
    assert_eq!(
        log,
        vec![
            ScriptCommand::Compile(Hook::Init),
            ScriptCommand::Leak(Hook::Init),
            ScriptCommand::Compile(Hook::Draw),
            ScriptCommand::Leak(Hook::Draw),
        ]
    );
    assert_eq!(handles.len(), 2);
    assert_eq!(handles[0].get_hook(), Hook::Init);
    assert_eq!(handles[0].get_token(), 11);
    assert_eq!(handles[1].get_hook(), Hook::Draw);
    assert_eq!(handles[1].get_token(), 12);
    assert!(handles.iter().all(|h| h.is_live()));
}

#[test]
fn hook_setup_releases_pinned_handles_on_failure() {
    let mut setup = HookSetup::new(vec![Hook::Init, Hook::Update, Hook::Draw]);
    let mut log = vec![];
    let mut reply = ScriptReply::Nothing;
    let mut token = 0;
    let result = loop {
        match setup.advance(reply) {
            SetupStep::Call(command) => {
                log.push(command);
                reply = match command {
                    ScriptCommand::Compile(Hook::Draw) => ScriptReply::Failed(failure()),
                    ScriptCommand::Compile(_) => ScriptReply::Done,
                    ScriptCommand::Leak(_) => {
                        token += 1;
                        ScriptReply::Pinned(token)
                    }
                    _ => ScriptReply::Nothing,
                };
            }
            SetupStep::Finished(result) => break result,
        }
    };
    assert_eq!(result.unwrap_err(), failure());
    assert_eq!(
        log[4..].to_vec(),
        vec![
            ScriptCommand::Compile(Hook::Draw),
            ScriptCommand::Release(1),
            ScriptCommand::Release(2),
        ]
    );
}

#[test]
fn hook_setup_failure_of_first_pin_releases_nothing() {
    let mut setup = HookSetup::new(vec![Hook::Init]);
    assert!(matches!(
        setup.advance(ScriptReply::Nothing),
        SetupStep::Call(ScriptCommand::Compile(Hook::Init))
    ));
    assert!(matches!(
        setup.advance(ScriptReply::Done),
        SetupStep::Call(ScriptCommand::Leak(Hook::Init))
    ));
    match setup.advance(ScriptReply::Failed(failure())) {
        SetupStep::Finished(Err(e)) => assert_eq!(e, failure()),
        _ => panic!("the set-up went on"),
    }
}

#[test]
fn hook_setup_without_hooks_finishes_at_once() {
    let mut setup = HookSetup::new(vec![]);
    match setup.advance(ScriptReply::Nothing) {
        SetupStep::Finished(Ok(handles)) => assert!(handles.is_empty()),
        _ => panic!("a request was made"),
    }
}

#[test]
fn compile_errors_are_logged_one_per_line() {
    let err = WrenError {
        display: "compile error".to_string(),
        kind: WrenErrorKind::CompileError(vec![
            WrenCompileError { module: "main".to_string(), message: "Unexpected token".to_string(), line: 3 },
            WrenCompileError { module: "game".to_string(), message: "Oops".to_string(), line: -1 },
        ]),
    };
    assert_eq!(
        log_wren_error(&err),
        vec!["Compile [main line 3] Unexpected token".to_string(), "Compile [game line -1] Oops".to_string()]
    );
}

#[test]
fn runtime_error_is_logged_with_stack_trace() {
    let stack = vec![
        WrenStackFrame {
            module: "gers.graphics".to_string(),
            line: 12,
            function: "new(_,_)".to_string(),
            is_foreign: true,
        },
        WrenStackFrame {
            module: "main".to_string(),
            line: 40,
            function: "init()".to_string(),
            is_foreign: false,
        },
    ];
    let script = WrenError {
        display: "runtime".to_string(),
        kind: WrenErrorKind::RuntimeError {
            message: "Null does not implement 'x'.".to_string(),
            foreign: None,
            stack: stack.clone(),
        },
    };
    assert_eq!(
        log_wren_error(&script),
        vec![
            "Script Runtime Error: Null does not implement 'x'.\nStack Trace:\n\t2. *foreign gers.graphics:12\n\t1. main init():40\n"
                .to_string()
        ]
    );
    let foreign = WrenError {
        display: "runtime".to_string(),
        kind: WrenErrorKind::RuntimeError {
            message: "ignored".to_string(),
            foreign: Some("Invalid texture size (0, 0).".to_string()),
            stack: vec![],
        },
    };
    assert_eq!(
        log_wren_error(&foreign),
        vec!["Foreign Runtime Error: Invalid texture size (0, 0).\nStack Trace:\n".to_string()]
    );
    let other = WrenError { display: "something else".to_string(), kind: WrenErrorKind::Other };
    assert_eq!(log_wren_error(&other), vec!["something else".to_string()]);
}

#[test]
fn session_error_text() {
    assert_eq!(GersError::InvalidCmdArgs.to_string(), "Invalid command line arguments");
    assert_eq!(GersError::from(failure()).to_string(), "variable not found");
    assert_eq!(GersError::from(failure()), GersError::Wren(failure()));
}

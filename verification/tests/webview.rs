use web_view::{
    decode_message, Color, Command, Content, DispatchQueue, Error, Flow, Launch, Lifecycle,
    NativeString, WVResult, WebView, WebViewBuilder, CSS_INJECT_FUNCTION,
};

type Handler = Box<dyn FnMut(&mut bool, &str) -> WVResult>;

type Task = Box<dyn FnOnce(&mut u32) -> WVResult + Send>;

fn open_view<T, I>(user_data: T, handler: I) -> WebView<T, I> {
    WebView::new(user_data, handler, true).unwrap()
}

fn deliver(view: &mut WebView<bool, Handler>, raw: &[u8]) {
    let mut next = view.receive(raw);
    while let Some(invocation) = next {
        let mut handler = invocation.handler;
        let result = handler(view.user_data_mut(), &invocation.message);
        next = view.finish_invoke(handler, result);
    }
}

#[test]
fn invoke_reaches_the_handler_and_the_next_step_is_fine() {
    let handler: Handler = Box::new(|data, arg| {
        if arg == "x" {
            *data = true;
        }
        Ok(())
    });
    let launch: Launch<bool, Handler> = WebViewBuilder::new()
        .content(Content::Html("<button onclick=\"external.invoke('x')\">"))
        .user_data(false)
        .invoke_handler(handler)
        .build()
        .unwrap();
    assert_eq!(
        launch.window.url.as_bytes(),
        "data:text/html,%3Cbutton%20onclick%3D%22external.invoke%28%27x%27%29%22%3E".as_bytes()
    );
    let mut view = WebView::new(launch.user_data, launch.invoke_handler, true).unwrap();
    assert_eq!(view.step(0), Some(Ok(())));
    assert_eq!(*view.user_data(), false);
    deliver(&mut view, b"x");
    assert_eq!(*view.user_data(), true);
    assert_eq!(view.step(0), Some(Ok(())));
    assert_eq!(view.lifecycle(), Lifecycle::Open);
}

#[test]
fn handler_error_stops_the_run() {
    let handler: Handler = Box::new(|_, arg| {
        if arg == "fail" {
            Err(Error::custom("boom"))
        } else {
            Ok(())
        }
    });
    let mut view = open_view(false, handler);
    assert_eq!(view.run(0), Flow::Continue);
    deliver(&mut view, b"fine");
    assert_eq!(view.run(0), Flow::Continue);
    deliver(&mut view, b"fail");
    assert_eq!(view.run(0), Flow::Fail(Error::Custom(String::from("boom"))));
    let mut queue: DispatchQueue<Task> = DispatchQueue::new();
    let teardown = view.teardown(&mut queue).unwrap();
    assert_eq!(teardown.commands, vec![Command::Exit, Command::Destroy]);
    assert!(!queue.is_live());
}

#[test]
fn hundred_dispatches_run_in_one_step() {
    let shared = std::sync::Arc::new(std::sync::Mutex::new(DispatchQueue::<Task>::new()));
    let mut view = open_view(0u32, ());
    let sender = std::sync::Arc::clone(&shared);
    let mut wakes = 0;
    for _ in 0..100 {
        let task: Task = Box::new(|data| {
            *data += 1;
            Ok(())
        });
        if sender.lock().unwrap().enqueue(task).unwrap() {
            wakes += 1;
        }
    }
    assert_eq!(wakes, 1);
    assert_eq!(*view.user_data(), 0);
    let batch = shared.lock().unwrap().drain();
    assert_eq!(batch.len(), 100);
    for task in batch {
        let result = task(view.user_data_mut());
        view.finish_dispatch(result);
    }
    assert_eq!(view.step(0), Some(Ok(())));
    assert_eq!(*view.user_data(), 100);
}

#[test]
fn new_fails_when_the_window_was_not_created() {
    let view: Result<WebView<u32, ()>, Error> = WebView::new(1, (), false);
    assert!(matches!(view, Err(Error::Initialization)));
}

#[test]
fn step_hands_out_the_pending_error_once() {
    let mut view = open_view((), ());
    view.finish_dispatch(Err(Error::custom("late")));
    assert_eq!(view.step(0), Some(Err(Error::Custom(String::from("late")))));
    assert_eq!(view.step(0), Some(Ok(())));
}

#[test]
fn later_error_replaces_the_pending_one() {
    let mut view = open_view((), ());
    view.finish_dispatch(Err(Error::custom("first")));
    view.finish_dispatch(Err(Error::custom("second")));
    assert_eq!(view.step(0), Some(Err(Error::Custom(String::from("second")))));
    assert_eq!(view.step(0), Some(Ok(())));
}

#[test]
fn later_success_does_not_hide_a_pending_error() {
    let mut view = open_view((), ());
    view.finish_dispatch(Err(Error::custom("third")));
    view.finish_dispatch(Ok(()));
    assert_eq!(view.step(0), Some(Err(Error::Custom(String::from("third")))));
    assert_eq!(view.step(0), Some(Ok(())));
}

#[test]
fn error_between_successes_is_handed_out_once() {
    let mut view = open_view((), ());
    view.finish_dispatch(Ok(()));
    view.finish_dispatch(Err(Error::JsEvaluation));
    view.finish_dispatch(Ok(()));
    view.finish_dispatch(Ok(()));
    assert_eq!(view.run(0), Flow::Fail(Error::JsEvaluation));
    view.finish_dispatch(Ok(()));
    assert_eq!(view.run(0), Flow::Continue);
}

#[test]
fn handler_success_does_not_hide_a_closure_error() {
    let mut view = open_view((), 1u8);
    view.finish_dispatch(Err(Error::custom("closure")));
    let invocation = view.receive(b"m").unwrap();
    assert!(view.finish_invoke(invocation.handler, Ok(())).is_none());
    assert_eq!(view.step(0), Some(Err(Error::Custom(String::from("closure")))));
    let invocation = view.receive(b"m").unwrap();
    assert!(view.finish_invoke(invocation.handler, Err(Error::custom("handler"))).is_none());
    view.finish_dispatch(Ok(()));
    assert_eq!(view.step(0), Some(Err(Error::Custom(String::from("handler")))));
}

#[test]
fn step_is_none_once_the_window_is_gone() {
    let mut view = open_view((), ());
    assert_eq!(view.lifecycle(), Lifecycle::Open);
    assert_eq!(view.step(1), None);
    assert_eq!(view.lifecycle(), Lifecycle::Closing);
    assert_eq!(view.step(-1), None);
    assert_eq!(view.run(7), Flow::Finish);
}

#[test]
fn step_stays_none_after_the_window_went() {
    let mut view = open_view((), ());
    view.finish_dispatch(Err(Error::Dispatch));
    assert_eq!(view.step(1), None);
    assert_eq!(view.step(0), None);
    assert_eq!(view.run(0), Flow::Finish);
}

#[test]
fn run_continues_finishes_and_fails() {
    let mut view = open_view((), ());
    assert_eq!(view.run(0), Flow::Continue);
    view.finish_dispatch(Err(Error::JsEvaluation));
    assert_eq!(view.run(0), Flow::Fail(Error::JsEvaluation));
    assert_eq!(view.run(0), Flow::Continue);
    assert_eq!(view.run(1), Flow::Finish);
}

#[test]
fn exit_may_be_asked_for_many_times() {
    let mut view = open_view(5u8, ());
    assert_eq!(view.exit(), Command::Exit);
    assert_eq!(view.lifecycle(), Lifecycle::Closing);
    assert_eq!(view.exit(), Command::Exit);
    assert_eq!(view.terminate(), Command::Exit);
    assert_eq!(view.lifecycle(), Lifecycle::Closing);
    assert_eq!(*view.user_data(), 5);
}

#[test]
fn next_step_after_exit_finds_the_view_on_its_way_out() {
    let mut view = open_view((), ());
    assert_eq!(view.step(0), Some(Ok(())));
    view.exit();
    assert_eq!(view.step(0), None);
    assert_eq!(view.step(0), None);
    assert_eq!(view.run(0), Flow::Finish);
    assert_eq!(view.lifecycle(), Lifecycle::Closing);
}

#[test]
fn teardown_runs_once() {
    let mut view = open_view(String::from("state"), ());
    let mut queue = DispatchQueue::new();
    queue.enqueue(1).unwrap();
    queue.enqueue(2).unwrap();
    let teardown = view.teardown(&mut queue).unwrap();
    assert_eq!(teardown.commands, vec![Command::Exit, Command::Destroy]);
    assert_eq!(teardown.user_data, "state");
    assert_eq!(teardown.released, vec![1, 2]);
    assert_eq!(view.lifecycle(), Lifecycle::Closed);
    assert!(!queue.is_live());
    assert!(view.teardown(&mut queue).is_none());
    assert!(view.teardown(&mut queue).is_none());
    assert_eq!(view.lifecycle(), Lifecycle::Closed);
    assert_eq!(queue.enqueue(3), Err(Error::Dispatch));
}

#[test]
fn teardown_after_exit_still_destroys() {
    let mut view = open_view(1u8, ());
    view.exit();
    let mut queue: DispatchQueue<u8> = DispatchQueue::new();
    let teardown = view.teardown(&mut queue).unwrap();
    assert_eq!(teardown.commands, vec![Command::Exit, Command::Destroy]);
    assert_eq!(teardown.user_data, 1);
    assert!(teardown.released.is_empty());
}

#[test]
fn into_inner_hands_out_the_user_data() {
    let view = open_view(vec![1, 2, 3], ());
    let mut queue = DispatchQueue::new();
    queue.enqueue('q').unwrap();
    let teardown = view.into_inner(&mut queue);
    assert_eq!(teardown.user_data, vec![1, 2, 3]);
    assert_eq!(teardown.commands, vec![Command::Exit, Command::Destroy]);
    assert_eq!(teardown.released, vec!['q']);
    assert_eq!(queue.enqueue('r'), Err(Error::Dispatch));
}

#[test]
fn results_are_dropped_once_the_view_is_torn_down() {
    let mut view = open_view((), 7u8);
    let mut queue: DispatchQueue<u8> = DispatchQueue::new();
    let invocation = view.begin_invoke(String::from("m")).unwrap();
    assert!(view.begin_invoke(String::from("waits")).is_none());
    view.teardown(&mut queue).unwrap();
    assert!(view.finish_invoke(invocation.handler, Err(Error::Dispatch)).is_none());
    view.finish_dispatch(Err(Error::Dispatch));
    assert!(view.begin_invoke(String::from("n")).is_none());
    assert!(view.finish_invoke(7, Ok(())).is_none());
    assert_eq!(view.lifecycle(), Lifecycle::Closed);
}

#[test]
fn handler_is_away_while_it_runs() {
    let mut view = open_view((), 7u8);
    let first = view.begin_invoke(String::from("one")).unwrap();
    assert_eq!(first.handler, 7);
    assert_eq!(first.message, "one");
    assert!(view.begin_invoke(String::from("two")).is_none());
    assert!(view.begin_invoke(String::from("three")).is_none());
    let second = view.finish_invoke(first.handler, Ok(())).unwrap();
    assert_eq!(second.handler, 7);
    assert_eq!(second.message, "two");
    assert!(view.begin_invoke(String::from("four")).is_none());
    let third = view.finish_invoke(second.handler, Ok(())).unwrap();
    assert_eq!(third.message, "three");
    let fourth = view.finish_invoke(third.handler, Ok(())).unwrap();
    assert_eq!(fourth.message, "four");
    assert!(view.finish_invoke(fourth.handler, Ok(())).is_none());
    let fifth = view.begin_invoke(String::from("five")).unwrap();
    assert_eq!(fifth.message, "five");
}

#[test]
fn receive_decodes_and_takes_the_handler() {
    let mut view = open_view((), 7u8);
    let invocation = view.receive(b"a\xffb").unwrap();
    assert_eq!(invocation.message, "a\u{fffd}b");
    assert_eq!(invocation.handler, 7);
    assert!(view.receive(b"again").is_none());
    let again = view.finish_invoke(invocation.handler, Ok(())).unwrap();
    assert_eq!(again.message, "again");
    assert!(view.finish_invoke(again.handler, Ok(())).is_none());
    assert_eq!(view.receive("caf\u{e9}".as_bytes()).unwrap().message, "caf\u{e9}");
}

#[test]
fn user_data_can_be_changed_in_place() {
    let mut view = open_view(1u32, ());
    *view.user_data_mut() += 41;
    assert_eq!(*view.user_data(), 42);
}

#[test]
fn eval_rejects_nul_bytes() {
    let view = open_view((), ());
    assert_eq!(view.eval("a\0b"), Err(Error::NulByte(1)));
    assert_eq!(view.eval("\0"), Err(Error::NulByte(0)));
    assert_eq!(view.eval("caf\u{e9}\0\0"), Err(Error::NulByte(5)));
}

#[test]
fn eval_accepts_everything_else() {
    let view = open_view((), ());
    assert_eq!(
        view.eval("alert('hi')"),
        Ok(Command::Eval(NativeString::new("alert('hi')").unwrap()))
    );
    match view.eval("") {
        Ok(Command::Eval(script)) => assert_eq!(script.as_bytes(), b""),
        other => panic!("{:?}", other),
    }
    match view.eval("\u{1f47e} 0") {
        Ok(Command::Eval(script)) => assert_eq!(script.as_bytes(), "\u{1f47e} 0".as_bytes()),
        other => panic!("{:?}", other),
    }
}

#[test]
fn set_title_rejects_nul_bytes_only() {
    let view = open_view((), ());
    assert_eq!(view.set_title("My\0App"), Err(Error::NulByte(2)));
    match view.set_title("My App") {
        Ok(Command::SetTitle(title)) => assert_eq!(title.as_bytes(), b"My App"),
        other => panic!("{:?}", other),
    }
}

#[test]
fn set_html_rejects_nul_bytes_only() {
    let view = open_view((), ());
    assert_eq!(view.set_html("<p>\0</p>"), Err(Error::NulByte(3)));
    match view.set_html("<p></p>") {
        Ok(Command::SetHtml(html)) => assert_eq!(html.as_bytes(), b"<p></p>"),
        other => panic!("{:?}", other),
    }
}

#[test]
fn inject_css_wraps_the_quoted_css_in_the_injecting_function() {
    let view = open_view((), ());
    match view.inject_css("a::after { content: '\\n'; }\n") {
        Ok(Command::InjectCss(script)) => {
            let expected = format!(
                "{}({})",
                CSS_INJECT_FUNCTION, "'a::after { content: \\'\\\\n\\'; }\\n'"
            );
            assert_eq!(script.as_bytes(), expected.as_bytes());
        }
        other => panic!("{:?}", other),
    }
}

#[test]
fn inject_css_reports_a_nul_byte_as_its_own_error() {
    let view = open_view((), ());
    assert_eq!(view.inject_css("body {\0}"), Err(Error::CssInjection));
}

#[test]
fn injecting_function_is_the_fixed_script() {
    assert_eq!(
        CSS_INJECT_FUNCTION,
        "(function(e){var t=document.createElement('style'),d=document.head||document.getElementsByTagName('head')[0];t.setAttribute('type','text/css'),t.styleSheet?t.styleSheet.cssText=e:t.appendChild(document.createTextNode(e)),d.appendChild(t)})"
    );
}

#[test]
fn window_commands_carry_their_arguments() {
    let view = open_view((), ());
    assert_eq!(view.set_fullscreen(true), Command::SetFullscreen(true));
    assert_eq!(view.set_maximized(false), Command::SetMaximized(false));
    assert_eq!(view.set_minimized(true), Command::SetMinimized(true));
    assert_eq!(view.set_visible(false), Command::SetVisible(false));
    assert_eq!(
        view.set_color(Color::from((1, 2, 3))),
        Command::SetColor(Color { r: 1, g: 2, b: 3, a: 255 })
    );
    assert_eq!(
        view.set_color((9, 8, 7, 6).into()),
        Command::SetColor(Color { r: 9, g: 8, b: 7, a: 6 })
    );
}

#[test]
fn outcome_maps_a_failed_evaluation_to_its_error() {
    let view = open_view((), ());
    let eval = view.eval("1").unwrap();
    assert_eq!(eval.outcome(0), Ok(()));
    assert_eq!(eval.outcome(1), Err(Error::JsEvaluation));
    assert_eq!(eval.outcome(-1), Err(Error::JsEvaluation));
    let css = view.inject_css("a{}").unwrap();
    assert_eq!(css.outcome(0), Ok(()));
    assert_eq!(css.outcome(3), Err(Error::CssInjection));
    assert_eq!(view.set_title("t").unwrap().outcome(5), Ok(()));
    assert_eq!(Command::Exit.outcome(5), Ok(()));
    assert_eq!(Command::Destroy.outcome(i32::MIN), Ok(()));
}

#[test]
fn messages_are_decoded_lossily() {
    assert_eq!(decode_message(b"hello"), "hello");
    assert_eq!(decode_message("caf\u{e9}".as_bytes()), "caf\u{e9}");
    assert_eq!(decode_message(b""), "");
    assert_eq!(decode_message(b"a\xffb"), "a\u{fffd}b");
    assert_eq!(decode_message(b"\xc3"), "\u{fffd}");
}

#[test]
fn message_sent_from_inside_the_handler_reaches_it_afterwards() {
    let mut view = open_view(Vec::<String>::new(), ());
    let mut next = view.receive(b"outer");
    let mut calls = 0;
    while let Some(invocation) = next {
        calls += 1;
        view.user_data_mut().push(invocation.message.clone());
        if invocation.message == "outer" {
            assert!(view.receive(b"inner one").is_none());
            assert!(view.receive(b"inner two").is_none());
        }
        let result = if invocation.message == "inner one" {
            Err(Error::custom("from inner one"))
        } else {
            Ok(())
        };
        next = view.finish_invoke(invocation.handler, result);
    }
    assert_eq!(calls, 3);
    assert_eq!(*view.user_data(), vec!["outer", "inner one", "inner two"]);
    assert_eq!(
        view.step(0),
        Some(Err(Error::Custom(String::from("from inner one"))))
    );
}

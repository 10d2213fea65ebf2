use sovereign_cli::demo::{
    media_allowed, new_epoch, route, Command, CommandRequest, CompanyInput, DemoError, DemoState,
    DemoView, ErrorCode, Method, OriginKind, RequestMeta, ResetInput, Route, MAX_VIEW, SEED_NAME,
};

fn input() -> CompanyInput {
    CompanyInput {
        name: "New company".into(),
        goal: "New goal".into(),
        service_name: "New service".into(),
        service_scope: "New scope".into(),
        currency: "SGD".into(),
        unit_price: "3500.00".into(),
    }
}

fn request(state: &DemoState, command: Command) -> CommandRequest {
    CommandRequest {
        epoch: state.epoch.clone(),
        expected_revision: state.revision,
        command,
    }
}

/// A stand-in for the serialized size: any view fits the real bound.
fn size(_view: &DemoView) -> usize {
    64
}

fn save(state: &mut DemoState, input: CompanyInput) -> Result<DemoView, DemoError> {
    let req = request(state, Command::SaveCompany(input));
    state.apply(req, size)
}

#[test]
fn business_demo_company_save_is_atomic() {
    let mut state = DemoState::seeded("0".repeat(32));
    let result = save(&mut state, input()).unwrap();
    assert_eq!(result.revision, 1);
    assert_eq!(result.case.input_revision, 1);
    assert_eq!(result.case.company.name, "New company");
    assert_eq!(result.case.company.goal, "New goal");
    assert_eq!(result.case.service.name, "New service");
    assert_eq!(result.case.service.scope, "New scope");
    assert_eq!(result.case.service.unit_price_cents, 350_000);
    assert_eq!(result.case.company.origin, OriginKind::UnverifiedExperimentInput);
    let before = state.view();
    let mut bad = input();
    bad.unit_price = "invalid".into();
    assert!(save(&mut state, bad).is_err());
    assert_eq!(state.view(), before);
}

#[test]
fn business_demo_amount_and_text_limits() {
    let cases = [
        ("name", "".to_owned()),
        ("name", "a".repeat(121)),
        ("name", "short\nname".into()),
        ("service_name", "bad\nname".into()),
        ("goal", "a".repeat(2001)),
        ("goal", "bad\tgoal".into()),
        ("service_scope", "bad\rtext".into()),
        ("unit_price", "0".into()),
        ("unit_price", "1000000.01".into()),
        ("unit_price", "1.001".into()),
        ("unit_price", "-1".into()),
        ("unit_price", "9999999999999999".into()),
        ("currency", "USD".into()),
        ("name", "界".repeat(41)),
    ];
    for (field, value) in cases {
        let mut state = DemoState::seeded("0".repeat(32));
        let before = state.view();
        let mut data = input();
        match field {
            "name" => data.name = value,
            "service_name" => data.service_name = value,
            "goal" => data.goal = value,
            "service_scope" => data.service_scope = value,
            "unit_price" => data.unit_price = value,
            "currency" => data.currency = value,
            _ => unreachable!(),
        }
        let error = save(&mut state, data).expect_err(field);
        assert_eq!(error.field.as_deref(), Some(field));
        assert_eq!(state.view(), before, "{field}");
    }
    let mut state = DemoState::seeded("0".repeat(32));
    let mut valid = input();
    valid.name = "界".repeat(40);
    valid.goal = "a".repeat(2000);
    valid.service_scope = "Line one\nLine two".into();
    valid.unit_price = "1000000.00".into();
    assert_eq!(
        save(&mut state, valid).unwrap().case.service.unit_price_cents,
        100_000_000
    );
}

#[test]
fn business_demo_epoch_revision_and_reset() {
    let mut state = DemoState::seeded("0".repeat(32));
    for (epoch, revision) in [("1".repeat(32), 99), (state.epoch.clone(), 99)] {
        let before = state.view();
        assert!(state
            .apply(
                CommandRequest {
                    epoch,
                    expected_revision: revision,
                    command: Command::Reset(ResetInput {})
                },
                size
            )
            .is_err());
        assert_eq!(state.view(), before);
    }
    save(&mut state, input()).unwrap();
    save(&mut state, input()).unwrap();
    assert_eq!(state.revision, 2);
    let old = state.epoch.clone();
    let req = request(&state, Command::Reset(ResetInput {}));
    let reset = state.apply(req, size).unwrap();
    assert_ne!(reset.epoch, old);
    assert_eq!(reset.revision, 0);
    assert_eq!(reset.case.company.name, SEED_NAME);
    state.revision = 10_000;
    let before = state.view();
    assert!(save(&mut state, input()).is_err());
    assert_eq!(state.view(), before);
}

#[test]
fn business_demo_detached_get_is_read_only() {
    let state = DemoState::seeded("0".repeat(32));
    let before = state.view();
    let mut detached = state.view();
    detached.case.company.name = "Different".into();
    detached.available_commands.clear();
    detached.epoch.clear();
    assert_eq!(state.view(), before);
    assert_ne!(detached, state.view());
}

#[test]
fn business_demo_reset_collision_and_view_bound_are_atomic() {
    let mut state = DemoState::seeded("0".repeat(32));
    let before = state.view();
    let draws: Vec<String> = (0..4).map(|_| "0".repeat(32)).collect();
    let req = request(&state, Command::Reset(ResetInput {}));
    let result = state.apply_bounded(req, &draws, size, MAX_VIEW);
    assert_eq!(result.unwrap_err().code, ErrorCode::InternalError);
    assert_eq!(state.view(), before);
    let command = CommandRequest {
        epoch: state.epoch.clone(),
        expected_revision: 0,
        command: Command::SaveCompany(input()),
    };
    let result = state.apply_bounded(command, &Vec::new(), size, 1);
    assert_eq!(result.unwrap_err().code, ErrorCode::LimitReached);
    assert_eq!(state.view(), before);
    let reset = CommandRequest {
        epoch: state.epoch.clone(),
        expected_revision: 0,
        command: Command::Reset(ResetInput {}),
    };
    let fresh: Vec<String> = vec!["1".repeat(32)];
    let result = state.apply_bounded(reset, &fresh, size, 1);
    assert_eq!(result.unwrap_err().code, ErrorCode::LimitReached);
    assert_eq!(state.view(), before);
}

#[test]
fn a_reset_takes_the_first_draw_that_differs_from_the_epoch() {
    let mut state = DemoState::seeded("0".repeat(32));
    let draws: Vec<String> = vec!["0".repeat(32), "0".repeat(32), "a".repeat(32), "b".repeat(32)];
    let req = request(&state, Command::Reset(ResetInput {}));
    let view = state.apply_bounded(req, &draws, size, MAX_VIEW).unwrap();
    assert_eq!(view.epoch, "a".repeat(32));
    assert_eq!(state.epoch, "a".repeat(32));
}

#[test]
fn a_fifth_draw_is_never_taken() {
    let mut state = DemoState::seeded("0".repeat(32));
    let mut draws: Vec<String> = (0..4).map(|_| "0".repeat(32)).collect();
    draws.push("f".repeat(32));
    let req = request(&state, Command::Reset(ResetInput {}));
    assert_eq!(
        state.apply_bounded(req, &draws, size, MAX_VIEW).unwrap_err().code,
        ErrorCode::InternalError
    );
}

#[test]
fn error_statuses_follow_the_code() {
    assert_eq!(DemoError::new(ErrorCode::StaleEpoch).status(), 409);
    assert_eq!(DemoError::new(ErrorCode::StaleRevision).status(), 409);
    assert_eq!(DemoError::new(ErrorCode::LimitReached).status(), 409);
    assert_eq!(DemoError::new(ErrorCode::InternalError).status(), 500);
    assert_eq!(DemoError::invalid("name").status(), 422);
    assert_eq!(DemoError::new(ErrorCode::UnsupportedCurrency).status(), 422);
}

#[test]
fn epochs_are_thirty_two_hex_digits() {
    let e = new_epoch();
    assert_eq!(e.len(), 32);
    assert!(e.chars().all(|c| c.is_ascii_hexdigit() && !c.is_ascii_uppercase()));
}

#[test]
fn json_media_types_are_recognised() {
    assert!(media_allowed("application/json"));
    assert!(media_allowed(" Application/JSON ; charset=UTF-8"));
    assert!(!media_allowed("application/json; charset=latin1"));
    assert!(!media_allowed("text/plain"));
    assert!(!media_allowed("application/json;charset=utf-8;x=1"));
}

fn meta(method: Method, url: &str) -> RequestMeta {
    RequestMeta {
        method,
        url: url.into(),
        hosts: vec!["127.0.0.1:7789".into()],
        origins: if method == Method::Post { vec!["http://127.0.0.1:7789".into()] } else { vec![] },
        content_lengths: vec![],
        transfer_encodings: vec![],
        expects: vec![],
        connections: vec![],
        founder_demo: vec!["1".into()],
        content_types: vec!["application/json".into()],
        body_length: if method == Method::Post { Some(10) } else { None },
    }
}

#[test]
fn requests_are_routed_by_origin_path_and_framing() {
    assert_eq!(route(&meta(Method::Get, "/"), 7789), Route::Index);
    assert_eq!(route(&meta(Method::Get, "/app.js"), 7789), Route::Script);
    assert_eq!(route(&meta(Method::Get, "/api/demo"), 7789), Route::View);
    assert_eq!(route(&meta(Method::Post, "/api/demo/command"), 7789), Route::Command { length: 10 });
    assert_eq!(
        route(&meta(Method::Post, "/api/demo"), 7789),
        Route::WrongMethod { allow: Method::Get }
    );
    assert_eq!(
        route(&meta(Method::Get, "/nope"), 7789),
        Route::Refuse { status: 404, code: "not_found" }
    );
    let mut foreign = meta(Method::Get, "/");
    foreign.hosts = vec!["evil.example".into()];
    assert_eq!(route(&foreign, 7789), Route::Refuse { status: 403, code: "forbidden_origin" });
    let mut no_origin = meta(Method::Post, "/api/demo/command");
    no_origin.origins.clear();
    assert_eq!(route(&no_origin, 7789), Route::Refuse { status: 403, code: "forbidden_origin" });
    let mut upgrade = meta(Method::Get, "/");
    upgrade.connections = vec!["keep-alive, Upgrade".into()];
    assert_eq!(route(&upgrade, 7789), Route::Refuse { status: 400, code: "invalid_request" });
    let mut bad_length = meta(Method::Post, "/api/demo/command");
    bad_length.content_lengths = vec!["ten".into()];
    assert_eq!(route(&bad_length, 7789), Route::Refuse { status: 400, code: "invalid_request" });
    let mut good_length = meta(Method::Post, "/api/demo/command");
    good_length.content_lengths = vec!["+10".into()];
    assert_eq!(route(&good_length, 7789), Route::Command { length: 10 });
    let mut plain = meta(Method::Post, "/api/demo/command");
    plain.content_types = vec!["text/plain".into()];
    assert_eq!(route(&plain, 7789), Route::Refuse { status: 415, code: "unsupported_media_type" });
    let mut unknown_length = meta(Method::Post, "/api/demo/command");
    unknown_length.body_length = None;
    assert_eq!(route(&unknown_length, 7789), Route::Refuse { status: 411, code: "length_required" });
    let mut big = meta(Method::Post, "/api/demo/command");
    big.body_length = Some(40_000);
    assert_eq!(route(&big, 7789), Route::Refuse { status: 413, code: "payload_too_large" });
    let mut no_marker = meta(Method::Post, "/api/demo/command");
    no_marker.founder_demo.clear();
    assert_eq!(route(&no_marker, 7789), Route::Refuse { status: 403, code: "forbidden_origin" });
}

use goober_launcher::launch::{
    classify_argument, get_query_param, has_prefix, join_script_url, launch_arguments,
    player_arguments, select_mode, LaunchDecision, RunMode,
};

fn pairs(items: &[(&str, &str)]) -> Vec<(String, String)> {
    items.iter().map(|(k, v)| (k.to_string(), v.to_string())).collect()
}

fn strings(items: &[&str]) -> Vec<String> {
    items.iter().map(|s| s.to_string()).collect()
}

#[test]
fn query_param_takes_first_match() {
    let p = pairs(&[("game", "7"), ("auth", "first"), ("auth", "second")]);
    assert_eq!(get_query_param(&p, "auth"), "first");
    assert_eq!(get_query_param(&p, "game"), "7");
}

#[test]
fn missing_query_param_is_empty() {
    let p = pairs(&[("game", "7")]);
    assert_eq!(get_query_param(&p, "placeid"), "");
    assert_eq!(get_query_param(&Vec::new(), "auth"), "");
}

#[test]
fn prefix_check() {
    assert!(has_prefix("goober-player:///?placeid=1", "goober-player:///?"));
    assert!(!has_prefix("goober-player://?placeid=1", "goober-player:///?"));
    assert!(!has_prefix("goober", "goober-player:///?"));
    assert!(has_prefix("anything", ""));
}

#[test]
fn join_script_address() {
    assert_eq!(
        join_script_url("1818", "tok", "abc"),
        "http://www.goober.biz/game/newcl/join.ashx?placeid=1818&auth=tok&game=abc"
    );
}

#[test]
fn player_command_line() {
    assert_eq!(
        player_arguments("tok", "http://join"),
        strings(&[
            "--authenticationUrl",
            "http://goober.biz/login/negotiate.ashx",
            "--authenticationTicket",
            "tok",
            "--joinScriptUrl",
            "http://join",
            "--play",
        ])
    );
}

#[test]
fn launch_arguments_from_pairs() {
    let p = pairs(&[("placeid", "5"), ("auth", "T"), ("game", "g1")]);
    assert_eq!(
        launch_arguments(&p),
        strings(&[
            "--authenticationUrl",
            "http://goober.biz/login/negotiate.ashx",
            "--authenticationTicket",
            "T",
            "--joinScriptUrl",
            "http://www.goober.biz/game/newcl/join.ashx?placeid=5&auth=T&game=g1",
            "--play",
        ])
    );
}

#[test]
fn launch_arguments_with_missing_params() {
    let p = pairs(&[]);
    assert_eq!(
        launch_arguments(&p),
        strings(&[
            "--authenticationUrl",
            "http://goober.biz/login/negotiate.ashx",
            "--authenticationTicket",
            "",
            "--joinScriptUrl",
            "http://www.goober.biz/game/newcl/join.ashx?placeid=&auth=&game=",
            "--play",
        ])
    );
}

#[test]
fn launch_uri_is_launched() {
    let d = classify_argument("goober-player:///?placeid=1818&auth=abc123&game=xyz");
    assert_eq!(
        d,
        LaunchDecision::Launch(strings(&[
            "--authenticationUrl",
            "http://goober.biz/login/negotiate.ashx",
            "--authenticationTicket",
            "abc123",
            "--joinScriptUrl",
            "http://www.goober.biz/game/newcl/join.ashx?placeid=1818&auth=abc123&game=xyz",
            "--play",
        ]))
    );
}

#[test]
fn launch_uri_parameters_are_decoded() {
    let d = classify_argument("goober-player:///?auth=a%20b+c&placeid=9");
    match d {
        LaunchDecision::Launch(args) => {
            assert_eq!(args[3], "a b c");
            assert_eq!(args[5], "http://www.goober.biz/game/newcl/join.ashx?placeid=9&auth=a b c&game=");
        }
        other => panic!("unexpected decision {:?}", other),
    }
}

#[test]
fn other_arguments_are_passed_over() {
    assert_eq!(classify_argument("C:\\launcher.exe"), LaunchDecision::NotALaunchUri);
    assert_eq!(classify_argument("goober-player://?placeid=1"), LaunchDecision::NotALaunchUri);
    assert_eq!(classify_argument(""), LaunchDecision::NotALaunchUri);
}

#[test]
fn mode_follows_argument_count() {
    assert_eq!(select_mode(0), RunMode::Install);
    assert_eq!(select_mode(1), RunMode::Install);
    assert_eq!(select_mode(2), RunMode::Play);
    assert_eq!(select_mode(5), RunMode::Play);
}

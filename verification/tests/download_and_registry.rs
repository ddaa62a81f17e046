use goober_launcher::download::Download;
use goober_launcher::registry::{open_command, protocol_registration, RegistryStep};
use goober_launcher::terminal::clear_screen_command;

#[test]
fn download_total_defaults_to_zero() {
    assert_eq!(Download::new(None).total(), 0);
    assert_eq!(Download::new(Some(1234)).total(), 1234);
}

#[test]
fn chunks_are_appended_in_order() {
    let mut d = Download::new(Some(6));
    assert_eq!(d.position(), 0);
    assert_eq!(d.write_with_progress(vec![1, 2, 3]), 3);
    assert_eq!(d.write_with_progress(vec![]), 0);
    assert_eq!(d.write_with_progress(vec![4, 5]), 2);
    assert_eq!(d.position(), 5);
    assert_eq!(d.total(), 6);
    assert_eq!(d.finish(), vec![1, 2, 3, 4, 5]);
}

#[test]
fn open_command_quotes_path_and_placeholder() {
    assert_eq!(
        open_command("C:\\Users\\u\\AppData\\Local\\GooberBlox\\GooberLauncher.exe"),
        "\"C:\\Users\\u\\AppData\\Local\\GooberBlox\\GooberLauncher.exe\" \"%1\""
    );
}

#[test]
fn registration_steps() {
    let steps = protocol_registration("L.exe");
    assert_eq!(
        steps,
        vec![
            RegistryStep::SetValue { name: String::new(), data: "URL goober-player Protocol".to_string() },
            RegistryStep::SetValue { name: "URL Protocol".to_string(), data: String::new() },
            RegistryStep::CreateKey { path: "shell\\open\\command".to_string() },
            RegistryStep::SetValue { name: String::new(), data: "\"L.exe\" \"%1\"".to_string() },
            RegistryStep::CreateKey { path: "DefaultIcon".to_string() },
        ]
    );
}

#[test]
fn clear_command_per_platform() {
    let w = clear_screen_command(true);
    assert_eq!(w.program, "cmd");
    assert_eq!(w.args, vec!["/c".to_string(), "cls".to_string()]);
    let u = clear_screen_command(false);
    assert_eq!(u.program, "clear");
    assert!(u.args.is_empty());
}

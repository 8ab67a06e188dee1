use kcshot::cli::{activate, command_line, local_command_line, Activation, Launch, LocalCommandLine};

fn args(list: &[&str]) -> Vec<String> {
    list.iter().map(|a| a.to_string()).collect()
}

#[test]
fn help_comes_first() {
    assert_eq!(local_command_line(&args(&["kcshot", "-s", "-n", "--help"])), LocalCommandLine::ShowHelp);
    assert_eq!(local_command_line(&args(&["kcshot", "-h"])), LocalCommandLine::ShowHelp);
}

#[test]
fn screenshot_and_no_window_are_mutually_exclusive() {
    assert_eq!(
        local_command_line(&args(&["kcshot", "--screenshot", "--no-window"])),
        LocalCommandLine::MutuallyExclusive
    );
    assert_eq!(local_command_line(&args(&["kcshot", "-n", "-s"])), LocalCommandLine::MutuallyExclusive);
    assert_eq!(local_command_line(&args(&["kcshot", "-s"])), LocalCommandLine::Proceed);
    assert_eq!(local_command_line(&args(&["kcshot", "--no-window"])), LocalCommandLine::Proceed);
    assert_eq!(local_command_line(&args(&["kcshot", "--screen"])), LocalCommandLine::Proceed);
}

#[test]
fn the_primary_instance_reads_the_flags() {
    assert_eq!(
        command_line(&args(&["kcshot"]), false),
        Launch { show_main_window: true, take_screenshot: false }
    );
    assert_eq!(
        command_line(&args(&["kcshot", "-s"]), false),
        Launch { show_main_window: false, take_screenshot: true }
    );
    assert_eq!(
        command_line(&args(&["kcshot", "--no-window"]), true),
        Launch { show_main_window: false, take_screenshot: false }
    );
    assert_eq!(
        command_line(&args(&["kcshot", "other"]), true),
        Launch { show_main_window: true, take_screenshot: true }
    );
}

#[test]
fn activation_consumes_what_was_asked() {
    let mut launch = Launch { show_main_window: false, take_screenshot: true };
    assert_eq!(activate(&mut launch), Activation::OpenEditor);
    assert_eq!(launch, Launch { show_main_window: false, take_screenshot: false });
    assert_eq!(activate(&mut launch), Activation::Nothing);
    let mut launch = Launch { show_main_window: true, take_screenshot: false };
    assert_eq!(activate(&mut launch), Activation::PresentMainWindow);
    assert_eq!(activate(&mut launch), Activation::Nothing);
}

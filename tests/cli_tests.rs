use cudamgr::cli::{
    Command, DoctorArgs, DoctorHandler, InstallArgs, InstallHandler, ListArgs, ListHandler,
    LogsArgs, LogsHandler, UninstallArgs, UninstallHandler, UseArgs, UseHandler,
};
use cudamgr::error::CudaMgrError;
use cudamgr::interactive::Interactive;
use cudamgr::managers::VersionResolver;
use cudamgr::output::{OutputFormatter, ProgressBar, Spinner};

#[test]
fn test_install_args_validation() {
    let args = InstallArgs { version: "11.8".to_string(), force: false, skip_driver: false };
    assert!(args.validate().is_ok());

    let args = InstallArgs { version: "".to_string(), force: false, skip_driver: false };
    assert!(args.validate().is_err());

    let args = InstallArgs {
        version: "invalid-version!".to_string(),
        force: false,
        skip_driver: false,
    };
    assert!(args.validate().is_err());
}

#[test]
fn test_use_args_validation() {
    let args = UseArgs { version: "12.0".to_string(), install: false };
    assert!(args.validate().is_ok());

    let args = UseArgs { version: "".to_string(), install: false };
    assert!(args.validate().is_err());
}

#[test]
fn test_logs_args_validation() {
    let args = LogsArgs { lines: 50, follow: false };
    assert!(args.validate().is_ok());

    let args = LogsArgs { lines: 0, follow: false };
    assert!(args.validate().is_err());
}

#[test]
fn test_doctor_args_validation() {
    let args = DoctorArgs { verbose: true };
    assert!(args.validate().is_ok());
}

#[test]
fn test_command_handlers_exist() {
    let _doctor_handler = DoctorHandler::new(DoctorArgs { verbose: false });
    let _install_handler = InstallHandler::new(InstallArgs {
        version: "11.8".to_string(),
        force: false,
        skip_driver: false,
    });
    let _use_handler = UseHandler::new(UseArgs { version: "11.8".to_string(), install: false });
    let _list_handler = ListHandler::new(ListArgs { available: false, verbose: false });
    let _uninstall_handler =
        UninstallHandler::new(UninstallArgs { version: "11.8".to_string(), yes: false });
    let _logs_handler = LogsHandler::new(LogsArgs { lines: 50, follow: false });

    assert!(true);
}

#[test]
fn test_progress_bar_creation() {
    let _progress = ProgressBar::new(100, "Test operation".to_string());
    assert!(true);
}

#[test]
fn test_progress_bar_update() {
    let mut progress = ProgressBar::new(100, "Test operation".to_string());
    progress.update(50);
    assert!(true);
}

#[test]
fn test_spinner_creation() {
    let _spinner = Spinner::new("Loading...".to_string());
    assert!(true);
}

#[test]
fn logs_line_count_bounds() {
    assert!(LogsArgs { lines: 10000, follow: false }.validate().is_ok());
    assert!(matches!(
        LogsArgs { lines: 10001, follow: true }.validate(),
        Err(CudaMgrError::Cli(_))
    ));
    assert!(matches!(
        UninstallArgs { version: "12.x".to_string(), yes: true }.validate(),
        Err(CudaMgrError::Cli(_))
    ));
}

#[test]
fn command_validation_follows_its_arguments() {
    assert!(Command::Doctor(DoctorArgs { verbose: false }).validate().is_ok());
    assert!(Command::List(ListArgs { available: true, verbose: false }).validate().is_ok());
    assert!(Command::Use(UseArgs { version: "12.0".to_string(), install: true })
        .validate()
        .is_ok());
    assert!(Command::Install(InstallArgs {
        version: "latest".to_string(),
        force: false,
        skip_driver: false
    })
    .validate()
    .is_err());
    assert!(Command::Logs(LogsArgs { lines: 0, follow: false }).validate().is_err());
}

#[test]
fn progress_percentage_and_message() {
    let mut bar = ProgressBar::new(200, "Downloading".to_string());
    bar.update(50);
    assert_eq!(bar.percentage(), 25);
    bar.set_message("Unpacking".to_string());
    assert_eq!(bar.message, "Unpacking");
    assert_eq!(ProgressBar::new(0, "x".to_string()).percentage(), 0);
}

#[test]
fn spinner_cycles_through_its_frames() {
    let mut s = OutputFormatter::spinner("Loading...");
    assert_eq!(s.current_frame, 0);
    let first = s.frame();
    for _ in 0..10 {
        s.tick();
    }
    assert_eq!(s.current_frame, 0);
    assert_eq!(s.frame(), first);
    s.tick();
    assert_eq!(s.current_frame, 1);
}

#[test]
fn resolver_takes_numeric_versions_only() {
    let r = VersionResolver::new();
    assert_eq!(r.resolve_version("11.8").unwrap(), "11.8");
    assert!(matches!(r.resolve_version("latest"), Err(CudaMgrError::Version(_))));
}

#[test]
fn prompt_answers() {
    assert!(Interactive::is_confirmation(" YES\n"));
    assert!(Interactive::is_confirmation("y"));
    assert!(!Interactive::is_confirmation("yeah"));
    assert_eq!(Interactive::selection("0\n", 3), Some(None));
    assert_eq!(Interactive::selection(" 3 ", 3), Some(Some(2)));
    assert_eq!(Interactive::selection("4", 3), None);
    assert_eq!(Interactive::selection("two", 3), None);
}

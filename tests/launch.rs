use sidecar_supervisor::inspect::check_path_type;
use sidecar_supervisor::launcher::{check_launch, plan_launch, LaunchError, LaunchProbe};
use sidecar_supervisor::paths::Platform;
use sidecar_supervisor::slot::ProcessSlot;

const ALL_PRESENT: LaunchProbe =
    LaunchProbe { interpreter_exists: true, script_exists: true, working_dir_exists: true };

#[test]
fn plan_on_unix() {
    let plan = plan_launch(Platform::Unix, "/app/resources");
    assert_eq!(plan.interpreter, "/app/resources/python/python3");
    assert_eq!(plan.script, "/app/resources/backend/main.py");
    assert_eq!(plan.working_dir, "/app/resources/backend");
}

#[test]
fn plan_on_windows() {
    let plan = plan_launch(Platform::Windows, "C:\\App\\resources");
    assert_eq!(plan.interpreter, "C:\\App\\resources\\python\\python.exe");
    assert_eq!(plan.script, "C:\\App\\resources\\backend\\main.py");
    assert_eq!(plan.working_dir, "C:\\App\\resources\\backend");
}

#[test]
fn successful_launch_fills_slot_once() {
    let plan = plan_launch(Platform::Unix, "/app/resources");
    assert_eq!(check_launch(&plan, &ALL_PRESENT), Ok(()));
    let mut slot: ProcessSlot<u32> = ProcessSlot::new();
    assert!(slot.is_empty());
    assert_eq!(slot.complete_launch(Ok(4242)), Ok(()));
    assert!(!slot.is_empty());
    assert_eq!(slot.take(), Some(4242));
    assert!(slot.is_empty());
}

#[test]
fn missing_interpreter_is_reported_first() {
    let plan = plan_launch(Platform::Unix, "/app/resources");
    let probe = LaunchProbe { interpreter_exists: false, script_exists: false, working_dir_exists: false };
    let err = check_launch(&plan, &probe).unwrap_err();
    assert_eq!(err, LaunchError::MissingInterpreter("/app/resources/python/python3".to_string()));
    assert_eq!(err.message(), "Python 解释器不存在: /app/resources/python/python3");
    let slot: ProcessSlot<u32> = ProcessSlot::new();
    assert!(slot.is_empty());
}

#[test]
fn missing_backend_is_reported_and_stop_is_noop() {
    let plan = plan_launch(Platform::Unix, "/app/resources");
    let probe = LaunchProbe { interpreter_exists: true, script_exists: false, working_dir_exists: false };
    let err = check_launch(&plan, &probe).unwrap_err();
    assert_eq!(err, LaunchError::MissingScript("/app/resources/backend/main.py".to_string()));
    assert!(err.message().contains("后端主文件不存在"));
    let mut slot: ProcessSlot<u32> = ProcessSlot::new();
    assert!(slot.is_empty());
    assert_eq!(slot.take(), None);
    assert!(slot.is_empty());
}

#[test]
fn missing_working_dir_is_reported() {
    let plan = plan_launch(Platform::Unix, "/r");
    let probe = LaunchProbe { interpreter_exists: true, script_exists: true, working_dir_exists: false };
    let err = check_launch(&plan, &probe).unwrap_err();
    assert_eq!(err, LaunchError::MissingWorkingDir("/r/backend".to_string()));
    assert_eq!(err.message(), "后端目录不存在: /r/backend");
}

#[test]
fn refused_spawn_is_reported_and_slot_unchanged() {
    let mut slot: ProcessSlot<u32> = ProcessSlot::new();
    let r = slot.complete_launch(Err("permission denied".to_string()));
    assert_eq!(r, Err(LaunchError::SpawnFailed("permission denied".to_string())));
    assert_eq!(r.unwrap_err().message(), "无法启动 Python 进程: permission denied");
    assert!(slot.is_empty());
}

#[test]
fn script_error_message() {
    let e = LaunchError::MissingScript("/x/backend/main.py".to_string());
    assert_eq!(e.message(), "后端主文件不存在: /x/backend/main.py");
}

#[test]
fn path_type_of_existing_and_missing() {
    let k = check_path_type("/tmp/a.txt".to_string(), true, true, false).unwrap();
    assert!(k.is_file);
    assert!(!k.is_directory);
    assert_eq!(k.path, "/tmp/a.txt");
    assert_eq!(check_path_type("/nope".to_string(), false, false, false), Err("路径不存在".to_string()));
}

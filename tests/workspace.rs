use resume_ide::workspace::{
    build_dir, build_dir_under, get_logs_dir, workspace_dir_under, workspace_root_under, get_projects_dir, get_templates_dir, get_workspace_root,
    scratch_root, workspace_layout,
};

#[test]
fn test_get_workspace_root_returns_some() {
    let root = get_workspace_root();
    assert!(root.is_some());
}

#[test]
fn test_workspace_root_ends_with_resumeide() {
    let root = get_workspace_root().unwrap();
    assert!(root.ends_with("ResumeIDE"));
}

#[test]
fn test_projects_dir_is_under_workspace() {
    let projects = get_projects_dir().unwrap();
    let root = get_workspace_root().unwrap();
    assert!(projects.starts_with(&root));
    assert!(projects.ends_with("projects"));
}

#[test]
fn test_templates_dir_is_under_workspace() {
    let templates = get_templates_dir().unwrap();
    let root = get_workspace_root().unwrap();
    assert!(templates.starts_with(&root));
    assert!(templates.ends_with("templates"));
}

#[test]
fn test_logs_dir_is_under_workspace() {
    let logs = get_logs_dir().unwrap();
    let root = get_workspace_root().unwrap();
    assert!(logs.starts_with(&root));
    assert!(logs.ends_with("logs"));
}

#[test]
fn layout_lists_root_then_children() {
    let dirs = workspace_layout("/data/ResumeIDE");
    assert_eq!(
        dirs,
        vec![
            "/data/ResumeIDE".to_string(),
            "/data/ResumeIDE/projects".to_string(),
            "/data/ResumeIDE/templates".to_string(),
            "/data/ResumeIDE/logs".to_string(),
        ]
    );
}

#[test]
fn scratch_root_prefers_cache_then_local_then_fallback() {
    assert_eq!(scratch_root(Some("/c".to_string()), Some("/l".to_string()), "/t"), "/c");
    assert_eq!(scratch_root(None, Some("/l".to_string()), "/t"), "/l");
    assert_eq!(scratch_root(None, None, "/t"), "/t");
}

#[test]
fn build_dir_ends_in_the_application_scratch_directory() {
    let dir = build_dir("/tmp");
    assert!(dir.ends_with("ResumeIDE/build"));
}

#[test]
fn scratch_directory_sits_under_the_first_root_there() {
    assert_eq!(build_dir_under(Some("/c".to_string()), Some("/l".to_string()), "/t"), "/c/ResumeIDE/build");
    assert_eq!(build_dir_under(None, Some("/l".to_string()), "/t"), "/l/ResumeIDE/build");
    assert_eq!(build_dir_under(None, None, "/t"), "/t/ResumeIDE/build");
    assert_eq!(build_dir_under(Some("/c/".to_string()), None, "/t"), "/c/ResumeIDE/build");
}

#[test]
fn workspace_children_end_in_their_names() {
    let root = get_workspace_root().unwrap();
    assert_eq!(get_projects_dir().unwrap(), format!("{}/projects", root));
    assert_eq!(get_templates_dir().unwrap(), format!("{}/templates", root));
    assert_eq!(get_logs_dir().unwrap(), format!("{}/logs", root));
}

#[test]
fn workspace_root_is_under_the_local_data_directory() {
    assert_eq!(workspace_root_under(Some("/home/ann/.local/share".to_string())).as_deref(), Some("/home/ann/.local/share/ResumeIDE"));
    assert_eq!(workspace_root_under(None), None);
    assert_eq!(workspace_dir_under(Some("/d".to_string()), "projects").as_deref(), Some("/d/ResumeIDE/projects"));
    assert_eq!(workspace_dir_under(None, "logs"), None);
}

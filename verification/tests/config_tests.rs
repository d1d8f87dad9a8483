use ruts::config::RutConfig;
use ruts::config::Window;
use ruts::config::WorkspaceConfig;
use serde_yaml::Value;

fn value_to_window(v: &Value) -> Window {
    Window {
        name: v.get("name").unwrap().as_str().unwrap().to_string(),
        command: v.get("command").map(|c| c.as_str().unwrap().to_string()),
        dir: v.get("dir").unwrap().as_str().unwrap().to_string(),
    }
}

fn value_to_workspace(v: &Value) -> WorkspaceConfig {
    WorkspaceConfig {
        name: v.get("name").unwrap().as_str().unwrap().to_string(),
        windows: v.get("windows").map(|w| {
            w.as_sequence().unwrap().iter().map(value_to_window).collect()
        }),
    }
}

fn value_to_config(v: &Value) -> RutConfig {
    RutConfig {
        workspaces: v.get("workspaces").map(|w| {
            w.as_sequence().unwrap().iter().map(value_to_workspace).collect()
        }),
    }
}

fn window_to_value(w: &Window) -> Value {
    let mut map = serde_yaml::Mapping::new();
    map.insert(Value::String("name".to_string()), Value::String(w.name.clone()));
    if let Some(c) = &w.command {
        map.insert(Value::String("command".to_string()), Value::String(c.clone()));
    }
    map.insert(Value::String("dir".to_string()), Value::String(w.dir.clone()));
    Value::Mapping(map)
}

fn workspace_to_value(w: &WorkspaceConfig) -> Value {
    let mut map = serde_yaml::Mapping::new();
    map.insert(Value::String("name".to_string()), Value::String(w.name.clone()));
    if let Some(windows) = &w.windows {
        map.insert(
            Value::String("windows".to_string()),
            Value::Sequence(windows.iter().map(window_to_value).collect()),
        );
    }
    Value::Mapping(map)
}

fn config_to_value(c: &RutConfig) -> Value {
    let mut map = serde_yaml::Mapping::new();
    if let Some(workspaces) = &c.workspaces {
        map.insert(
            Value::String("workspaces".to_string()),
            Value::Sequence(workspaces.iter().map(workspace_to_value).collect()),
        );
    }
    Value::Mapping(map)
}

#[test]
fn test_window() {
    let test_window = "
name: window
command: /bin/bash
dir: /home";
    let test_window_parse: Result<Value, serde_yaml::Error> = serde_yaml::from_str(test_window);
    assert!(test_window_parse.is_ok());
    let unwrapped = value_to_window(&test_window_parse.unwrap());
    let window_val = Window {
        name: "window".to_string(),
        command: Some("/bin/bash".to_string()),
        dir: "/home".to_string(),
    };
    assert_eq!(unwrapped, window_val);
}

#[test]
fn test_workspace_config() {
    let test = "
name: test_conf
windows:
    - name: window1
      dir: /home
    - name: window2
      dir: /home
";
    let test_workspace_parse: Result<Value, serde_yaml::Error> = serde_yaml::from_str(test);
    assert!(test_workspace_parse.is_ok());
    let workspace = value_to_workspace(&test_workspace_parse.unwrap());
    let window1: Window = Window {
        name: "window1".to_string(),
        command: None,
        dir: "/home".to_string(),
    };
    let window2: Window = Window {
        name: "window2".to_string(),
        command: None,
        dir: "/home".to_string(),
    };
    let windows = Some(vec![window1, window2]);
    let workspace_compare = WorkspaceConfig {
        name: "test_conf".to_string(),
        windows,
    };
    assert_eq!(workspace.name, String::from("test_conf"));
    assert_eq!(workspace, workspace_compare);
}

#[test]
fn round_trip_preserves_model() {
    let config = RutConfig {
        workspaces: Some(vec![
            WorkspaceConfig {
                name: "dev".to_string(),
                windows: Some(vec![
                    Window {
                        name: "editor".to_string(),
                        command: Some("vim .".to_string()),
                        dir: "/home/dev".to_string(),
                    },
                    Window {
                        name: "shell".to_string(),
                        command: None,
                        dir: "/tmp".to_string(),
                    },
                ]),
            },
            WorkspaceConfig {
                name: "idle".to_string(),
                windows: None,
            },
        ]),
    };
    let document = serde_yaml::to_string(&config_to_value(&config)).unwrap();
    let reparsed: Value = serde_yaml::from_str(&document).unwrap();
    let rebuilt = value_to_config(&reparsed);
    let original = config.workspaces.unwrap();
    let recovered = rebuilt.workspaces.unwrap();
    assert_eq!(original.len(), recovered.len());
    for (a, b) in original.iter().zip(recovered.iter()) {
        assert_eq!(a, b);
    }
}

#[test]
fn lookup_finds_first_exact_match() {
    let config = RutConfig {
        workspaces: Some(vec![
            WorkspaceConfig { name: "alpha".to_string(), windows: None },
            WorkspaceConfig {
                name: "beta".to_string(),
                windows: Some(vec![Window {
                    name: "first".to_string(),
                    command: None,
                    dir: "/".to_string(),
                }]),
            },
            WorkspaceConfig { name: "beta".to_string(), windows: None },
        ]),
    };
    let found = config.lookup(&"beta".to_string()).unwrap();
    assert_eq!(found.name, "beta".to_string());
    assert!(found.windows.is_some());
    assert!(config.lookup(&"gamma".to_string()).is_none());
}

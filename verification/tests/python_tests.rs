use kiro_account_manager::locate::{
    chrome_candidates, data_dir_name, detect_chrome_path, get_scripts_dir, install_candidates,
    script_file_name, Platform, ScriptsDir,
};
use kiro_account_manager::python::{
    conclude_named, conclude_search, detect_python, detect_python_with_path, get_python_version,
    located_path, DetectError, DetectionPlan, FoundPythons,
};

#[test]
fn what_is_tried_on_a_unix_system_without_a_home() {
    let c = detect_python(false, "");
    assert_eq!(c.len(), 23);
    assert_eq!(
        &c[..8],
        [
            "python3",
            "python",
            "/usr/bin/python3",
            "/usr/local/bin/python3",
            "/opt/homebrew/bin/python3",
            "/usr/bin/python3.13",
            "/usr/local/bin/python3.13",
            "/opt/homebrew/bin/python3.13",
        ]
    );
    assert_eq!(c[8], "/usr/bin/python3.12");
    assert_eq!(c[22], "/opt/homebrew/bin/python3.8");
}

#[test]
fn what_is_tried_on_a_unix_system_with_a_home() {
    let c = detect_python(false, "/home/u");
    assert_eq!(c.len(), 23 + 2 + 105 + 6);
    assert_eq!(c[23], "/home/u/.pyenv/shims/python");
    assert_eq!(c[24], "/home/u/.pyenv/shims/python3");
    assert_eq!(c[25], "/home/u/.pyenv/versions/3.13.0/bin/python");
    assert_eq!(c[26], "/home/u/.pyenv/versions/3.13.1/bin/python");
    assert_eq!(c[45], "/home/u/.pyenv/versions/3.13.20/bin/python");
    assert_eq!(c[46], "/home/u/.pyenv/versions/3.12.0/bin/python");
    assert_eq!(c[129], "/home/u/.pyenv/versions/3.9.20/bin/python");
    assert_eq!(
        &c[130..],
        [
            "/home/u/anaconda3/bin/python",
            "/home/u/miniconda3/bin/python",
            "/home/u/mambaforge/bin/python",
            "/home/u/miniforge3/bin/python",
            "/home/u/.asdf/shims/python",
            "/home/u/.asdf/shims/python3",
        ]
    );
    assert!(!c.iter().any(|p| p.contains("versions/3.8.")));
}

#[test]
fn what_is_tried_on_windows() {
    let c = detect_python(true, "");
    assert_eq!(c.len(), 3 + 18);
    assert_eq!(&c[..3], ["python", "python3", "py"]);
    assert_eq!(c[3], "C:\\Python313\\python.exe");
    assert_eq!(c[4], "C:\\Program Files\\Python313\\python.exe");
    assert_eq!(c[5], "C:\\Program Files (x86)\\Python313\\python.exe");
    assert_eq!(c[6], "C:\\Python312\\python.exe");
    assert_eq!(c[20], "C:\\Program Files (x86)\\Python38\\python.exe");

    let c = detect_python(true, "C:\\Users\\u");
    assert_eq!(c.len(), 3 + 24 + 2 + 105 + 4);
    assert_eq!(c[6], "C:\\Users\\u\\AppData\\Local\\Programs\\Python\\Python313\\python.exe");
    assert_eq!(c[7], "C:\\Python312\\python.exe");
    assert_eq!(c[27], "C:\\Users\\u\\.pyenv\\pyenv-win\\shims\\python.exe");
    assert_eq!(c[28], "C:\\Users\\u\\.pyenv\\pyenv-win\\shims\\python3.exe");
    assert_eq!(c[29], "C:\\Users\\u\\.pyenv\\pyenv-win\\versions\\3.13.0\\python.exe");
    assert_eq!(c[133], "C:\\Users\\u\\.pyenv\\pyenv-win\\versions\\3.9.20\\python.exe");
    assert_eq!(
        &c[134..],
        [
            "C:\\Users\\u\\Anaconda3\\python.exe",
            "C:\\Users\\u\\miniconda3\\python.exe",
            "C:\\Users\\u\\anaconda3\\python.exe",
            "C:\\Users\\u\\Miniconda3\\python.exe",
        ]
    );
}

#[test]
fn a_named_interpreter_is_the_only_one_tried() {
    match detect_python_with_path(Some("/opt/py"), false, "/home/u") {
        DetectionPlan::Named(p) => assert_eq!(p, "/opt/py"),
        DetectionPlan::Search(_) => panic!("the named interpreter is tried"),
    }
    match detect_python_with_path(Some(""), false, "") {
        DetectionPlan::Search(c) => assert_eq!(c, detect_python(false, "")),
        DetectionPlan::Named(_) => panic!("an empty name names nothing"),
    }
    match detect_python_with_path(None, true, "H") {
        DetectionPlan::Search(c) => assert_eq!(c, detect_python(true, "H")),
        DetectionPlan::Named(_) => panic!("no name was given"),
    }
}

#[test]
fn how_a_search_is_concluded() {
    assert!(matches!(conclude_named("/opt/py".to_string(), true), Ok(p) if p == "/opt/py"));
    match conclude_named("/opt/py".to_string(), false) {
        Err(e) => {
            assert!(matches!(&e, DetectError::InvalidPath(p) if p == "/opt/py"));
            assert_eq!(e.message(), "指定的 Python 路径无效: /opt/py");
        }
        Ok(_) => panic!("an interpreter that does not work is not taken"),
    }
    let c = vec!["a".to_string(), "b".to_string()];
    assert!(matches!(conclude_search(&c, Some(1), Some("w".to_string())), Ok(p) if p == "b"));
    assert!(matches!(conclude_search(&c, Some(0), None), Ok(p) if p == "a"));
    assert!(matches!(conclude_search(&c, None, Some("w".to_string())), Ok(p) if p == "w"));
    match conclude_search(&c, None, None) {
        Err(e) => {
            assert!(matches!(e, DetectError::NotFound));
            assert_eq!(
                e.message(),
                "未找到 Python，请安装 Python 3.x 或手动指定 Python 路径"
            );
        }
        Ok(_) => panic!("nothing was found"),
    }
}

#[test]
fn the_path_that_the_system_points_to() {
    assert_eq!(located_path(false, "/usr/bin/python3\n"), Some("/usr/bin/python3".to_string()));
    assert_eq!(located_path(false, "  \n"), None);
    assert_eq!(located_path(false, ""), None);
    assert_eq!(
        located_path(true, "C:\\Py\\python.exe\r\nC:\\Other\\python.exe\r\n"),
        Some("C:\\Py\\python.exe".to_string())
    );
    assert_eq!(located_path(true, " C:\\Py\\python.exe \n"), Some("C:\\Py\\python.exe".to_string()));
    assert_eq!(located_path(true, "\r\nC:\\Py\\python.exe"), None);
    assert_eq!(located_path(true, ""), None);
    assert_eq!(located_path(true, "one line"), Some("one line".to_string()));
}

#[test]
fn the_version_that_an_interpreter_reports() {
    assert_eq!(get_python_version(true, "Python 3.12.1\n", ""), Some("Python 3.12.1".to_string()));
    assert_eq!(get_python_version(true, "", "Python 2.7.18\n"), Some("Python 2.7.18".to_string()));
    assert_eq!(get_python_version(true, " \n", " x "), Some("x".to_string()));
    assert_eq!(get_python_version(true, "", ""), Some(String::new()));
    assert_eq!(get_python_version(false, "Python 3.12.1", ""), None);
}

#[test]
fn each_interpreter_is_listed_once() {
    let mut found = FoundPythons::new();
    assert_eq!(found.count(), 0);
    assert!(!found.contains("/usr/bin/python3"));
    assert!(found.offer("/usr/bin/python3".to_string(), Some("Python 3.12.1".to_string())));
    assert!(found.contains("/usr/bin/python3"));
    assert!(!found.offer("/usr/bin/python3".to_string(), Some("Python 3.13.0".to_string())));
    assert!(!found.offer("/usr/bin/python2".to_string(), None));
    assert!(!found.contains("/usr/bin/python2"));
    assert!(found.offer("/usr/local/bin/python3".to_string(), Some("Python 3.11.0".to_string())));
    assert_eq!(found.count(), 2);
    assert_eq!(found.get(0), ("/usr/bin/python3", "Python 3.12.1"));
    assert_eq!(found.get(1), ("/usr/local/bin/python3", "Python 3.11.0"));
}

#[test]
fn where_chrome_is_looked_for() {
    assert_eq!(
        chrome_candidates(Platform::Linux, "/home/u"),
        [
            "/usr/bin/google-chrome",
            "/usr/bin/google-chrome-stable",
            "/usr/bin/chromium",
            "/usr/bin/chromium-browser",
        ]
    );
    assert_eq!(
        chrome_candidates(Platform::MacOs, "/Users/u"),
        [
            "/Applications/Google Chrome.app/Contents/MacOS/Google Chrome",
            "/Users/u/Applications/Google Chrome.app/Contents/MacOS/Google Chrome",
        ]
    );
    assert_eq!(
        chrome_candidates(Platform::Windows, ""),
        [
            "C:\\Program Files\\Google\\Chrome\\Application\\chrome.exe",
            "C:\\Program Files (x86)\\Google\\Chrome\\Application\\chrome.exe",
            "\\AppData\\Local\\Google\\Chrome\\Application\\chrome.exe",
        ]
    );
}

#[test]
fn the_first_place_that_exists_is_taken() {
    let places = chrome_candidates(Platform::Linux, "");
    assert_eq!(detect_chrome_path(&places, &vec![false, false, false, false]), None);
    assert_eq!(
        detect_chrome_path(&places, &vec![false, true, false, true]),
        Some("/usr/bin/google-chrome-stable".to_string())
    );
    assert_eq!(
        detect_chrome_path(&places, &vec![true, true, true, true]),
        Some("/usr/bin/google-chrome".to_string())
    );
    assert_eq!(detect_chrome_path(&Vec::new(), &Vec::new()), None);
}

#[test]
fn where_further_interpreters_are_looked_for() {
    assert_eq!(
        install_candidates(false, ""),
        ["/usr/bin/python3", "/usr/local/bin/python3", "/opt/homebrew/bin/python3"]
    );
    assert_eq!(
        install_candidates(false, "/h"),
        [
            "/usr/bin/python3",
            "/usr/local/bin/python3",
            "/opt/homebrew/bin/python3",
            "/h/.pyenv/shims/python3",
            "/h/anaconda3/bin/python",
            "/h/miniconda3/bin/python",
            "/h/mambaforge/bin/python",
            "/h/miniforge3/bin/python",
        ]
    );
    assert_eq!(
        install_candidates(true, ""),
        [
            "C:\\Python313\\python.exe",
            "C:\\Python312\\python.exe",
            "C:\\Python311\\python.exe",
            "C:\\Python310\\python.exe",
            "C:\\Python39\\python.exe",
        ]
    );
    let w = install_candidates(true, "H");
    assert_eq!(w.len(), 14);
    assert_eq!(w[0], "C:\\Python313\\python.exe");
    assert_eq!(w[1], "H\\AppData\\Local\\Programs\\Python\\Python313\\python.exe");
    assert_eq!(w[9], "H\\AppData\\Local\\Programs\\Python\\Python39\\python.exe");
    assert_eq!(w[10], "H\\Anaconda3\\python.exe");
    assert_eq!(w[13], "H\\Miniconda3\\python.exe");
}

#[test]
fn where_the_worker_script_is_kept() {
    assert_eq!(get_scripts_dir(false, true, true, Some(true)), ScriptsDir::DataDir);
    assert_eq!(get_scripts_dir(true, true, true, Some(true)), ScriptsDir::Current);
    assert_eq!(get_scripts_dir(true, false, true, Some(true)), ScriptsDir::Parent);
    assert_eq!(get_scripts_dir(true, false, false, Some(true)), ScriptsDir::ProjectRoot);
    assert_eq!(get_scripts_dir(true, false, false, Some(false)), ScriptsDir::DataDir);
    assert_eq!(get_scripts_dir(true, false, false, None), ScriptsDir::DataDir);
    assert_eq!(script_file_name(), "auto.py");
    assert_eq!(data_dir_name(), ".kiro-account-manager");
}

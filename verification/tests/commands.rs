use inference_bridge::command::BridgeConfig;
use inference_bridge::command::CommandLine;
use inference_bridge::command::InferenceRequest;
use inference_bridge::command::ResourcePaths;

fn strings(items: &[&str]) -> Vec<String> {
    items.iter().map(|s| s.to_string()).collect()
}

fn paths(model: Option<&str>, charset: Option<&str>) -> ResourcePaths {
    ResourcePaths {
        script_path: String::from("/res/predict.py"),
        model_path: model.map(String::from),
        charset_path: charset.map(String::from),
    }
}

fn request(image: &str) -> InferenceRequest {
    InferenceRequest { image_payload: String::from(image) }
}

#[test]
fn default_config_is_the_stock_installation() {
    let config = BridgeConfig::default();
    assert_eq!(config.interpreter, "python3");
    assert_eq!(config.required_version, "3.10.13");
    assert_eq!(config.environment_dir, "../src-py/venv");
    assert_eq!(config.installer, "pip");
    assert_eq!(config.requirements, "requirements.txt");
}

#[test]
fn version_query_asks_the_interpreter() {
    let command = BridgeConfig::default().version_query();
    assert_eq!(
        command,
        CommandLine { program: String::from("python3"), arguments: strings(&["--version"]) }
    );
}

#[test]
fn creation_command_names_the_directory() {
    let command = BridgeConfig::default().creation_command();
    assert_eq!(command.program, "python3");
    assert_eq!(command.arguments, strings(&["-m", "venv", "../src-py/venv"]));
}

#[test]
fn installation_command_names_the_requirements() {
    let command = BridgeConfig::default().installation_command();
    assert_eq!(command.program, "pip");
    assert_eq!(command.arguments, strings(&["install", "-r", "requirements.txt"]));
}

#[test]
fn commands_follow_the_settings() {
    let config = BridgeConfig {
        interpreter: String::from("/opt/py/bin/python"),
        required_version: String::from("3.12"),
        environment_dir: String::from("/var/env"),
        installer: String::from("/opt/py/bin/pip"),
        requirements: String::from("/etc/deps.txt"),
    };
    assert_eq!(config.version_query().program, "/opt/py/bin/python");
    assert_eq!(config.creation_command().arguments, strings(&["-m", "venv", "/var/env"]));
    assert_eq!(config.installation_command().program, "/opt/py/bin/pip");
    assert_eq!(
        config.installation_command().arguments,
        strings(&["install", "-r", "/etc/deps.txt"])
    );
}

#[test]
fn inference_command_without_resources_is_script_then_image() {
    let command = BridgeConfig::default().inference_command(&paths(None, None), "scan.png");
    assert_eq!(command.program, "python3");
    assert_eq!(command.arguments, strings(&["/res/predict.py", "scan.png"]));
}

#[test]
fn inference_command_orders_model_before_charset() {
    let command = BridgeConfig::default()
        .inference_command(&paths(Some("/res/model.pt"), Some("/res/chars.txt")), "a");
    assert_eq!(
        command.arguments,
        strings(&["/res/predict.py", "/res/model.pt", "/res/chars.txt", "a"])
    );
}

#[test]
fn inference_command_skips_a_missing_resource() {
    let config = BridgeConfig::default();
    let only_model = config.inference_command(&paths(Some("/m"), None), "a");
    assert_eq!(only_model.arguments, strings(&["/res/predict.py", "/m", "a"]));
    let only_charset = config.inference_command(&paths(None, Some("/c")), "a");
    assert_eq!(only_charset.arguments, strings(&["/res/predict.py", "/c", "a"]));
}

#[test]
fn inference_command_passes_the_image_on_as_it_is() {
    let command = BridgeConfig::default().inference_command(&paths(None, None), " a b \n");
    assert_eq!(command.arguments, strings(&["/res/predict.py", " a b \n"]));
}

#[test]
fn request_command_trims_the_image() {
    let command = BridgeConfig::default()
        .request_command(&paths(None, None), &request("  \t/tmp/my scan.png \r\n"));
    assert_eq!(command.program, "python3");
    assert_eq!(command.arguments, strings(&["/res/predict.py", "/tmp/my scan.png"]));
}

#[test]
fn request_command_keeps_the_order_of_resources() {
    let command = BridgeConfig::default()
        .request_command(&paths(Some("/m"), Some("/c")), &request("img\n"));
    assert_eq!(command.arguments, strings(&["/res/predict.py", "/m", "/c", "img"]));
}

#[test]
fn request_of_white_space_is_an_empty_argument() {
    let command = BridgeConfig::default().request_command(&paths(None, None), &request(" \n "));
    assert_eq!(command.arguments, strings(&["/res/predict.py", ""]));
}

use cuc::code_engine::{
    application_exists, build_deployment_arguments, deployed, extract_build_run_name,
    generate_dockerfile, gives_up, retry_failure, CodeEngineDeploymentConfig,
    CodeEngineDeploymentResult, CodeEngineDeploymentService, CodeEngineDeploymentServiceImpl,
    DeployToCodeEngineUseCase,
};
use cuc::domain::{CloudProvider, Command, CommandLearning, NaturalLanguageQuery, QualityAnalysis};
use cuc::error::Error;
use cuc::qdrant::QdrantVectorStore;
use cuc::ratio::Ratio;
use cuc::repository::{CommandLearningRepository, FileCommandLearningRepository};
use std::cell::RefCell;

struct Scripted {
    plugin: Result<bool, String>,
    fail_at: Option<&'static str>,
    calls: RefCell<Vec<String>>,
}

impl Scripted {
    fn step(&self, name: &str) -> Result<(), String> {
        self.calls.borrow_mut().push(name.to_string());
        if self.fail_at == Some(name) {
            Err(format!("{} failed", name))
        } else {
            Ok(())
        }
    }
}

impl CodeEngineDeploymentService for Scripted {
    fn deploy(&self, _config: &CodeEngineDeploymentConfig) -> Result<CodeEngineDeploymentResult, String> {
        self.step("deploy")?;
        Ok(CodeEngineDeploymentResult::success("https://app".to_string(), "run-1".to_string()))
    }

    fn check_plugin_installed(&self) -> Result<bool, String> {
        self.calls.borrow_mut().push("plugin".to_string());
        self.plugin.clone()
    }

    fn ensure_setup(&self, region: &str, resource_group: &str) -> Result<(), String> {
        self.step(&format!("setup {} {}", region, resource_group))
    }

    fn ensure_project(&self, project_name: &str) -> Result<(), String> {
        self.step(&format!("project {}", project_name))
    }

    fn ensure_secrets(&self, secret_name: &str, env_file_path: &str) -> Result<(), String> {
        self.step(&format!("secrets {} {}", secret_name, env_file_path))
    }
}

fn scripted(plugin: Result<bool, String>, fail_at: Option<&'static str>) -> Scripted {
    Scripted { plugin, fail_at, calls: RefCell::new(Vec::new()) }
}

#[test]
fn deployment_runs_its_steps_in_order() {
    let service = scripted(Ok(true), None);
    let result = DeployToCodeEngineUseCase::new(&service)
        .execute(&CodeEngineDeploymentConfig::default())
        .unwrap();
    assert!(result.success);
    assert_eq!(result.app_url, Some("https://app".to_string()));
    assert_eq!(
        *service.calls.borrow(),
        vec![
            "plugin",
            "setup us-south Default",
            "project watsonx-sdlc-project",
            "secrets watsonx-credentials .env",
            "deploy"
        ]
    );
}

#[test]
fn deployment_stops_at_the_first_failure() {
    let service = scripted(Ok(false), None);
    let error = DeployToCodeEngineUseCase::new(&service)
        .execute(&CodeEngineDeploymentConfig::default())
        .unwrap_err();
    assert_eq!(error, "Code Engine plugin not installed. Please install it first.");
    assert_eq!(*service.calls.borrow(), vec!["plugin"]);

    let service = scripted(Err("no program".to_string()), None);
    let error = DeployToCodeEngineUseCase::new(&service)
        .execute(&CodeEngineDeploymentConfig::default())
        .unwrap_err();
    assert_eq!(error, "no program");

    let service = scripted(Ok(true), Some("project watsonx-sdlc-project"));
    let error = DeployToCodeEngineUseCase::new(&service)
        .execute(&CodeEngineDeploymentConfig::default())
        .unwrap_err();
    assert_eq!(error, "project watsonx-sdlc-project failed");
    assert_eq!(service.calls.borrow().len(), 3);

    let mut config = CodeEngineDeploymentConfig::default();
    config.env_file_path = None;
    let service = scripted(Ok(true), None);
    DeployToCodeEngineUseCase::new(&service).execute(&config).unwrap();
    assert_eq!(service.calls.borrow().len(), 4);
}

#[test]
fn deployment_defaults_and_results() {
    let config = CodeEngineDeploymentConfig::default();
    assert_eq!(config.app_name, "watsonx-sdlc-bun");
    assert_eq!(config.source_path, ".");
    assert_eq!(config.dockerfile_path, None);
    assert_eq!(config.env_file_path, Some(".env".to_string()));
    assert_eq!((config.min_scale, config.max_scale, config.port), (1, 3, 8000));
    assert_eq!((config.cpu.as_str(), config.memory.as_str()), ("1", "4G"));
    assert_eq!((config.build_size.as_str(), config.build_timeout), ("large", 900));

    let ok = CodeEngineDeploymentResult::success("u".to_string(), "b".to_string());
    assert!(ok.success);
    assert_eq!(ok.build_run_name, Some("b".to_string()));
    assert_eq!(ok.error, None);
    assert!(ok.logs.is_empty());
    let failed = CodeEngineDeploymentResult::failure("bad".to_string());
    assert!(!failed.success);
    assert_eq!(failed.app_url, None);
    assert_eq!(failed.error, Some("bad".to_string()));
    let _service = CodeEngineDeploymentServiceImpl::new();
    let _store = QdrantVectorStore::new();
}

#[test]
fn build_run_names_are_read_from_the_seventh_character_of_the_key() {
    assert_eq!(extract_build_run_name("{\"id\":\"x\"}"), None);
    assert_eq!(extract_build_run_name("{\"name\":\"run-42\"}"), Some(String::new()));
    assert_eq!(extract_build_run_name("\"name\":\""), Some(String::new()));
    assert_eq!(extract_build_run_name(""), None);
    assert_eq!(extract_build_run_name("short"), None);
}

#[test]
fn commands_and_analyses_are_valid_from_six_tenths_without_issues() {
    let mut command = Command::new("ibmcloud login".to_string(), CloudProvider::IBMCloud);
    assert_eq!(command.quality_score, Ratio::new(0, 1));
    assert!(!command.is_valid());
    command.update_quality(Ratio::new(6, 10), Vec::new());
    assert!(command.is_valid());
    command.update_quality(Ratio::new(59, 100), Vec::new());
    assert!(!command.is_valid());
    command.update_quality(Ratio::new(9, 10), vec!["issue".to_string()]);
    assert!(!command.is_valid());
    assert_eq!(command.value, "ibmcloud login");

    assert!(QualityAnalysis::new(Ratio::new(3, 5), Vec::new(), Vec::new()).is_acceptable());
    assert!(!QualityAnalysis::new(Ratio::new(1, 2), Vec::new(), Vec::new()).is_acceptable());
    assert!(!QualityAnalysis::new(Ratio::one(), vec!["x".to_string()], Vec::new()).is_acceptable());
}

#[test]
fn queries_and_learnings() {
    let query = NaturalLanguageQuery::new("list my apps".to_string());
    assert_eq!(query.as_str(), "list my apps");
    assert_eq!(NaturalLanguageQuery::from_text("x").text, "x");
    let learning = CommandLearning::new("q".to_string(), "c".to_string(), None);
    assert_eq!(learning.query, "q");
    assert_eq!(learning.correct_command, "c");
    assert!(learning.timestamp > 1_500_000_000);
    let fixed = CommandLearning::at("q".to_string(), "c".to_string(), Some("p".to_string()), 7);
    assert_eq!(fixed.timestamp, 7);
    assert_eq!(fixed.clone().error_pattern, Some("p".to_string()));
}

#[test]
fn errors_read_as_kind_and_message() {
    assert_eq!(Error::RAGEngine("not ready".to_string()).to_string(), "RAG engine error: not ready");
    assert_eq!(Error::Io("gone".to_string()).to_string(), "IO error: gone");
    assert_eq!(Error::InvalidInput("x".to_string()).to_string(), "Invalid input: x");
    assert_eq!(Error::LLMProvider(String::new()).to_string(), "LLM provider error: ");
}

#[test]
fn the_repository_keeps_one_correction_per_query() {
    let mut repo = FileCommandLearningRepository::new("corrections.json");
    assert_eq!(repo.file_path(), "corrections.json");
    let learn = |q: &str, c: &str| CommandLearning::at(q.to_string(), c.to_string(), None, 1);
    repo.save(learn("list all databases", "first")).unwrap();
    repo.save(learn("show my databases", "second")).unwrap();
    repo.save(learn("list all databases", "third")).unwrap();
    assert_eq!(repo.len(), 2);
    let found = repo.find_by_query(&NaturalLanguageQuery::from_text("list all databases"));
    assert_eq!(found.unwrap().correct_command, "third");
    assert!(repo.find_by_query(&NaturalLanguageQuery::from_text("list")).is_none());
    let all: Vec<String> = repo.find_all().iter().map(|l| l.correct_command.clone()).collect();
    assert_eq!(all, vec!["third", "second"]);

    let query = NaturalLanguageQuery::from_text("show databases");
    let similar: Vec<String> = repo
        .find_similar(&query, &Ratio::new(3, 10))
        .iter()
        .map(|l| l.query.clone())
        .collect();
    assert_eq!(similar, vec!["show my databases", "list all databases"]);
    assert_eq!(repo.similar_positions("show databases", &Ratio::new(1, 1)), vec![1]);
}

#[test]
fn an_application_exists_where_the_query_names_it() {
    assert!(application_exists(true, "{\"name\":\"web\",\"x\":1}", "web"));
    assert!(!application_exists(false, "{\"name\":\"web\"}", "web"));
    assert!(!application_exists(true, "{\"name\": \"web\"}", "web"));
    assert!(!application_exists(true, "{\"name\":\"website\"}", "web"));
    assert!(!application_exists(true, "", "web"));
    assert!(application_exists(true, "\"name\":\"\"", ""));
}

#[test]
fn deployment_arguments_follow_the_configuration() {
    let config = CodeEngineDeploymentConfig::default();
    let created = build_deployment_arguments(&config, false, "/tmp/pkg");
    assert_eq!(
        created,
        vec![
            "ce", "application", "create", "--name", "watsonx-sdlc-bun", "--build-source",
            "/tmp/pkg", "--strategy", "dockerfile", "--build-size", "large", "--build-timeout",
            "900", "--env-from-secret", "watsonx-credentials", "--env", "NODE_ENV=production",
            "--cpu", "1", "--memory", "4G", "--min-scale", "1", "--max-scale", "3", "--port",
            "8000", "--wait",
        ]
    );
    let mut other = CodeEngineDeploymentConfig::default();
    other.app_name = "web".to_string();
    other.min_scale = 0;
    other.max_scale = u32::MAX;
    other.port = u16::MAX;
    let updated = build_deployment_arguments(&other, true, "");
    assert_eq!(updated.len(), 28);
    assert_eq!(updated[2], "update");
    assert_eq!(updated[4], "web");
    assert_eq!(updated[6], "");
    assert_eq!(updated[22], "0");
    assert_eq!(updated[24], "4294967295");
    assert_eq!(updated[26], "65535");
}

#[test]
fn a_deployment_without_address_or_build_run_says_so() {
    let known = deployed(Some("https://app".to_string()), Some("run-1".to_string()));
    assert!(known.success);
    assert_eq!(known.app_url.as_deref(), Some("https://app"));
    assert_eq!(known.build_run_name.as_deref(), Some("run-1"));
    assert_eq!(known.error, None);
    let unknown = deployed(None, None);
    assert!(unknown.success);
    assert_eq!(unknown.app_url.as_deref(), Some("URL not available"));
    assert_eq!(unknown.build_run_name.as_deref(), Some("unknown"));
}

#[test]
fn a_step_is_given_up_when_the_attempts_are_used_up() {
    assert!(!gives_up(1, 3));
    assert!(!gives_up(2, 3));
    assert!(gives_up(3, 3));
    assert!(gives_up(4, 3));
    assert!(gives_up(1, 0));
    assert_eq!(retry_failure(3, "no route"), "Failed after 3 attempts: no route");
    assert_eq!(retry_failure(0, ""), "Failed after 0 attempts: ");
}

#[test]
fn the_default_dockerfile_builds_with_bun() {
    let text = generate_dockerfile();
    assert!(text.starts_with("FROM oven/bun:1 AS base\nWORKDIR /app\n\n# Install dependencies\n"));
    assert!(text.contains("HEALTHCHECK --interval=30s --timeout=3s --start-period=40s --retries=3 \\\n  CMD bun run -e \"fetch('http://localhost:8000/health')"));
    assert!(text.ends_with("# Start the server\nCMD [\"bun\", \"run\", \"dist/index.js\"]\n"));
    assert_eq!(text.lines().count(), 31);
}

#[test]
fn providers_convert_to_provider_types_and_back() {
    for t in cuc::cloud_provider::CloudProviderType::all() {
        let p: CloudProvider = t.into();
        assert_eq!(p, CloudProvider::from_provider_type(t));
        let back: cuc::cloud_provider::CloudProviderType = p.into();
        assert_eq!(back, t);
        assert_eq!(p.cli_command(), t.cli_command());
    }
    let query: NaturalLanguageQuery = String::from("list my apps").into();
    assert_eq!(query.as_str(), "list my apps");
}

//! Deployment to Code Engine: configuration, result, and the order of steps.

use vstd::prelude::*;
use crate::text::{
    chars_of, contains, decimal, decimal_string, find_chars, find_from, push_str, slice_of,
    string_of, strings,
};

verus! {

/// How an application is deployed to Code Engine.
#[derive(Debug)]
pub struct CodeEngineDeploymentConfig {
    /// Project name
    pub project_name: String,
    /// Application name
    pub app_name: String,
    /// Region, such as `us-south`
    pub region: String,
    /// Resource group
    pub resource_group: String,
    /// Path of the source directory
    pub source_path: String,
    /// Path of the Dockerfile; one is generated where there is none
    pub dockerfile_path: Option<String>,
    /// Path of the file with environment variables
    pub env_file_path: Option<String>,
    /// Name of the secret that holds the credentials
    pub secret_name: String,
    /// CPU allocation
    pub cpu: String,
    /// Memory allocation
    pub memory: String,
    /// Least number of instances
    pub min_scale: u32,
    /// Largest number of instances
    pub max_scale: u32,
    /// Port number
    pub port: u16,
    /// Build size: small, medium, large, xlarge or xxlarge
    pub build_size: String,
    /// Build timeout in seconds
    pub build_timeout: u32,
}

impl Default for CodeEngineDeploymentConfig {
    fn default() -> (c: Self)
        ensures
            c.project_name@ == "watsonx-sdlc-project"@,
            c.app_name@ == "watsonx-sdlc-bun"@,
            c.region@ == "us-south"@,
            c.resource_group@ == "Default"@,
            c.source_path@ == "."@,
            c.dockerfile_path is None,
            c.env_file_path matches Some(p) && p@ == ".env"@,
            c.secret_name@ == "watsonx-credentials"@,
            c.cpu@ == "1"@,
            c.memory@ == "4G"@,
            c.min_scale == 1,
            c.max_scale == 3,
            c.port == 8000,
            c.build_size@ == "large"@,
            c.build_timeout == 900,
    {
        CodeEngineDeploymentConfig {
            project_name: "watsonx-sdlc-project".to_owned(),
            app_name: "watsonx-sdlc-bun".to_owned(),
            region: "us-south".to_owned(),
            resource_group: "Default".to_owned(),
            source_path: ".".to_owned(),
            dockerfile_path: None,
            env_file_path: Some(".env".to_owned()),
            secret_name: "watsonx-credentials".to_owned(),
            cpu: "1".to_owned(),
            memory: "4G".to_owned(),
            min_scale: 1,
            max_scale: 3,
            port: 8000,
            build_size: "large".to_owned(),
            build_timeout: 900,
        }
    }
}

/// How a deployment ended.
#[derive(Debug)]
pub struct CodeEngineDeploymentResult {
    /// Whether the deployment succeeded
    pub success: bool,
    /// The address of the application, where the deployment succeeded
    pub app_url: Option<String>,
    /// The name of the build run
    pub build_run_name: Option<String>,
    /// What went wrong, where the deployment failed
    pub error: Option<String>,
    /// The log of the deployment
    pub logs: Vec<String>,
}

impl CodeEngineDeploymentResult {
    /// The result of a deployment that succeeded.
    pub fn success(url: String, build_run: String) -> (r: Self)
        ensures
            r.success,
            r.app_url == Some(url),
            r.build_run_name == Some(build_run),
            r.error is None,
            r.logs@.len() == 0,
    {
        CodeEngineDeploymentResult {
            success: true,
            app_url: Some(url),
            build_run_name: Some(build_run),
            error: None,
            logs: Vec::new(),
        }
    }

    /// The result of a deployment that failed.
    pub fn failure(error: String) -> (r: Self)
        ensures
            !r.success,
            r.app_url is None,
            r.build_run_name is None,
            r.error == Some(error),
            r.logs@.len() == 0,
    {
        CodeEngineDeploymentResult {
            success: false,
            app_url: None,
            build_run_name: None,
            error: Some(error),
            logs: Vec::new(),
        }
    }
}

/// The steps of a deployment, each of which talks to IBM Cloud.
///
/// For every step the service may say which outcomes the step can have for
/// given arguments. A service that says nothing admits every outcome.
pub trait CodeEngineDeploymentService {
    /// Whether the deployment with `config` may end with `outcome`.
    open spec fn may_deploy(
        &self,
        config: &CodeEngineDeploymentConfig,
        outcome: Result<CodeEngineDeploymentResult, String>,
    ) -> bool {
        true
    }

    /// Whether the plugin check may end with `outcome`.
    open spec fn may_check_plugin(&self, outcome: Result<bool, String>) -> bool {
        true
    }

    /// Whether the setup for `region` and `resource_group` may end with `outcome`.
    open spec fn may_set_up(
        &self,
        region: Seq<char>,
        resource_group: Seq<char>,
        outcome: Result<(), String>,
    ) -> bool {
        true
    }

    /// Whether the selection of the project `project_name` may end with `outcome`.
    open spec fn may_select_project(&self, project_name: Seq<char>, outcome: Result<(), String>) -> bool {
        true
    }

    /// Whether keeping the secret `secret_name` from the file
    /// `env_file_path` may end with `outcome`.
    open spec fn may_keep_secrets(
        &self,
        secret_name: Seq<char>,
        env_file_path: Seq<char>,
        outcome: Result<(), String>,
    ) -> bool {
        true
    }

    /// Deploys the application.
    fn deploy(&self, config: &CodeEngineDeploymentConfig) -> (r: Result<
        CodeEngineDeploymentResult,
        String,
    >)
        ensures
            self.may_deploy(config, r),
    ;

    /// Tells whether the Code Engine plugin is installed.
    fn check_plugin_installed(&self) -> (r: Result<bool, String>)
        ensures
            self.may_check_plugin(r),
    ;

    /// Makes sure that IBM Cloud is logged in and targeted.
    fn ensure_setup(&self, region: &str, resource_group: &str) -> (r: Result<(), String>)
        ensures
            self.may_set_up(region@, resource_group@, r),
    ;

    /// Selects the Code Engine project.
    fn ensure_project(&self, project_name: &str) -> (r: Result<(), String>)
        ensures
            self.may_select_project(project_name@, r),
    ;

    /// Creates or updates the secret from a file with environment
    /// variables. Does nothing where the file does not exist.
    fn ensure_secrets(&self, secret_name: &str, env_file_path: &str) -> (r: Result<(), String>)
        ensures
            self.may_keep_secrets(secret_name@, env_file_path@, r),
    ;
}

/// What is said where the Code Engine plugin is not installed.
pub open spec fn plugin_missing_message() -> Seq<char> {
    "Code Engine plugin not installed. Please install it first."@
}

/// The run ends with the failure `e` of a step that may fail so.
pub open spec fn fails_with(r: Result<CodeEngineDeploymentResult, String>, e: String) -> bool {
    r == Err::<CodeEngineDeploymentResult, String>(e)
}

/// The last two steps of a run give `r`: the secrets, where a file with
/// environment variables is configured, and then the deployment. A failure
/// of the secrets ends the run; else the run ends as the deployment does.
pub open spec fn secrets_and_deployment_give<S: CodeEngineDeploymentService>(
    service: &S,
    config: &CodeEngineDeploymentConfig,
    r: Result<CodeEngineDeploymentResult, String>,
) -> bool {
    match config.env_file_path {
        Some(env_file) => {
            ||| exists|e: String| #[trigger]
                fails_with(r, e) && service.may_keep_secrets(
                    config.secret_name@,
                    env_file@,
                    Err(e),
                )
            ||| (service.may_keep_secrets(config.secret_name@, env_file@, Ok(()))
                && service.may_deploy(config, r))
        },
        None => service.may_deploy(config, r),
    }
}

/// A run of the deployment over `service` with `config` gives `r`. The
/// steps are taken in order: the plugin check, the setup for the region
/// and the resource group, the selection of the project, the secrets, and
/// the deployment. The first step that fails ends the run with its error,
/// and a plugin that is not installed ends it with an error of the run's
/// own. Every later step is taken only after the earlier ones succeeded.
pub open spec fn run_gives<S: CodeEngineDeploymentService>(
    service: &S,
    config: &CodeEngineDeploymentConfig,
    r: Result<CodeEngineDeploymentResult, String>,
) -> bool {
    ||| exists|e: String| #[trigger] fails_with(r, e) && service.may_check_plugin(Err(e))
    ||| (service.may_check_plugin(Ok(false)) && (r matches Err(m) && m@
        == plugin_missing_message()))
    ||| (service.may_check_plugin(Ok(true)) && {
        ||| exists|e: String| #[trigger]
            fails_with(r, e) && service.may_set_up(
                config.region@,
                config.resource_group@,
                Err(e),
            )
        ||| (service.may_set_up(config.region@, config.resource_group@, Ok(())) && {
            ||| exists|e: String| #[trigger]
                fails_with(r, e) && service.may_select_project(config.project_name@, Err(e))
            ||| (service.may_select_project(config.project_name@, Ok(()))
                && secrets_and_deployment_give(service, config, r))
        })
    })
}

/// The use case of deploying an application to Code Engine.
pub struct DeployToCodeEngineUseCase<'a, S: CodeEngineDeploymentService> {
    deployment_service: &'a S,
}

impl<'a, S: CodeEngineDeploymentService> DeployToCodeEngineUseCase<'a, S> {
    /// The service that the use case runs.
    pub closed spec fn service(&self) -> &S {
        self.deployment_service
    }

    /// The use case over the service `deployment_service`.
    pub fn new(deployment_service: &'a S) -> (u: Self)
        ensures
            u.service() == deployment_service,
    {
        DeployToCodeEngineUseCase { deployment_service }
    }

    /// Runs the steps in order: the plugin check, the setup, the project,
    /// the secrets where a file is configured, and the deployment. The
    /// first step that fails ends the run with its error.
    pub fn execute(&self, config: &CodeEngineDeploymentConfig) -> (r: Result<
        CodeEngineDeploymentResult,
        String,
    >)
        ensures
            run_gives(self.service(), config, r),
    {
        let checked = self.deployment_service.check_plugin_installed();
        match checked {
            Err(e) => {
                assert(fails_with(Err(e), e));
                return Err(e);
            },
            Ok(installed) => {
                if !installed {
                    return Err(
                        "Code Engine plugin not installed. Please install it first.".to_owned(),
                    );
                }
            },
        }
        let set_up = self.deployment_service.ensure_setup(
            config.region.as_str(),
            config.resource_group.as_str(),
        );
        match set_up {
            Err(e) => {
                assert(fails_with(Err(e), e));
                return Err(e);
            },
            Ok(done) => {
                assert(done == ());
            },
        }
        let selected = self.deployment_service.ensure_project(config.project_name.as_str());
        match selected {
            Err(e) => {
                assert(fails_with(Err(e), e));
                return Err(e);
            },
            Ok(done) => {
                assert(done == ());
            },
        }
        match &config.env_file_path {
            Some(env_file) => {
                let kept = self.deployment_service.ensure_secrets(
                    config.secret_name.as_str(),
                    env_file.as_str(),
                );
                match kept {
                    Err(e) => {
                        assert(fails_with(Err(e), e));
                        return Err(e);
                    },
                    Ok(done) => {
                        assert(done == ());
                    },
                }
            },
            None => {},
        }
        self.deployment_service.deploy(config)
    }
}

/// The deployment service that drives the `ibmcloud` program.
pub struct CodeEngineDeploymentServiceImpl {}

impl CodeEngineDeploymentServiceImpl {
    /// The service.
    pub fn new() -> Self {
        CodeEngineDeploymentServiceImpl {  }
    }
}

/// Where the name of a build run is read from, counted from the start of
/// the key that announces it.
pub const BUILD_RUN_NAME_OFFSET: usize = 7;

/// The name of the build run in the output of a listing: what stands from
/// `BUILD_RUN_NAME_OFFSET` characters after the start of the first
/// `"name":"` up to the next double quote.
pub open spec fn build_run_name(output: Seq<char>) -> Option<Seq<char>> {
    match find_from(output, "\"name\":\""@, 0) {
        None => None,
        Some(p) => match find_from(output, seq!['"'], p + BUILD_RUN_NAME_OFFSET) {
            None => None,
            Some(e) => Some(output.subrange(p + BUILD_RUN_NAME_OFFSET, e)),
        },
    }
}

/// The name of the build run in the output of a listing.
pub fn extract_build_run_name(json_output: &str) -> (r: Option<String>)
    ensures
        match r {
            Some(s) => build_run_name(json_output@) == Some(s@),
            None => build_run_name(json_output@) is None,
        },
{
    let text = chars_of(json_output);
    let key = chars_of("\"name\":\"");
    let mut quote: Vec<char> = Vec::new();
    quote.push('"');
    match find_chars(&text, &key, 0) {
        None => None,
        Some(p) => {
            if text.len() < BUILD_RUN_NAME_OFFSET || p > text.len() - BUILD_RUN_NAME_OFFSET {
                return None;
            }
            let start = p + BUILD_RUN_NAME_OFFSET;
            match find_chars(&text, &quote, start) {
                None => None,
                Some(e) => {
                    let name = slice_of(&text, start, e);
                    Some(string_of(&name))
                },
            }
        },
    }
}

/// The application is taken to exist where the query for it succeeded and
/// its output names it.
pub open spec fn names_application(succeeded: bool, output: Seq<char>, app_name: Seq<char>) -> bool {
    succeeded && contains(output, "\"name\":\""@ + app_name + "\""@)
}

/// Whether the application `app_name` exists, judged by the outcome of the
/// query for it.
pub fn application_exists(succeeded: bool, output: &str, app_name: &str) -> (r: bool)
    ensures
        r == names_application(succeeded, output@, app_name@),
{
    let mut key = chars_of("\"name\":\"");
    push_str(&mut key, app_name);
    push_str(&mut key, "\"");
    let text = chars_of(output);
    succeeded && crate::text::contains_chars(&text, &key)
}

/// The arguments with which the `ibmcloud` program deploys an application
/// from the sources in `package_path`: an update where the application
/// exists, and else a creation.
pub open spec fn deployment_arguments(
    config: CodeEngineDeploymentConfig,
    exists: bool,
    package_path: Seq<char>,
) -> Seq<Seq<char>> {
    seq![
        "ce"@,
        "application"@,
        if exists {
            "update"@
        } else {
            "create"@
        },
        "--name"@,
        config.app_name@,
        "--build-source"@,
        package_path,
        "--strategy"@,
        "dockerfile"@,
        "--build-size"@,
        config.build_size@,
        "--build-timeout"@,
        decimal(config.build_timeout as nat),
        "--env-from-secret"@,
        config.secret_name@,
        "--env"@,
        "NODE_ENV=production"@,
        "--cpu"@,
        config.cpu@,
        "--memory"@,
        config.memory@,
        "--min-scale"@,
        decimal(config.min_scale as nat),
        "--max-scale"@,
        decimal(config.max_scale as nat),
        "--port"@,
        decimal(config.port as nat),
        "--wait"@,
    ]
}

/// The arguments with which the `ibmcloud` program deploys the application.
pub fn build_deployment_arguments(
    config: &CodeEngineDeploymentConfig,
    exists: bool,
    package_path: &str,
) -> (r: Vec<String>)
    ensures
        strings(r@) == deployment_arguments(*config, exists, package_path@),
{
    let mut r: Vec<String> = Vec::new();
    r.push("ce".to_owned());
    r.push("application".to_owned());
    if exists {
        r.push("update".to_owned());
    } else {
        r.push("create".to_owned());
    }
    r.push("--name".to_owned());
    r.push(config.app_name.clone());
    r.push("--build-source".to_owned());
    r.push(package_path.to_owned());
    r.push("--strategy".to_owned());
    r.push("dockerfile".to_owned());
    r.push("--build-size".to_owned());
    r.push(config.build_size.clone());
    r.push("--build-timeout".to_owned());
    r.push(decimal_string(config.build_timeout as usize));
    r.push("--env-from-secret".to_owned());
    r.push(config.secret_name.clone());
    r.push("--env".to_owned());
    r.push("NODE_ENV=production".to_owned());
    r.push("--cpu".to_owned());
    r.push(config.cpu.clone());
    r.push("--memory".to_owned());
    r.push(config.memory.clone());
    r.push("--min-scale".to_owned());
    r.push(decimal_string(config.min_scale as usize));
    r.push("--max-scale".to_owned());
    r.push(decimal_string(config.max_scale as usize));
    r.push("--port".to_owned());
    r.push(decimal_string(config.port as usize));
    r.push("--wait".to_owned());
    assert(strings(r@) =~= deployment_arguments(*config, exists, package_path@));
    r
}

/// The result of a deployment that succeeded, with what is said where
/// the address or the build run is not known.
pub fn deployed(app_url: Option<String>, build_run_name: Option<String>) -> (r:
    CodeEngineDeploymentResult)
    ensures
        r.success,
        r.error is None,
        r.logs@.len() == 0,
        r.app_url matches Some(url) && url@ == (match app_url {
            Some(u) => u@,
            None => "URL not available"@,
        }),
        r.build_run_name matches Some(name) && name@ == (match build_run_name {
            Some(n) => n@,
            None => "unknown"@,
        }),
{
    let url = match app_url {
        Some(u) => u,
        None => "URL not available".to_owned(),
    };
    let name = match build_run_name {
        Some(n) => n,
        None => "unknown".to_owned(),
    };
    CodeEngineDeploymentResult::success(url, name)
}

/// A step that failed at attempt number `attempt` is not tried again once
/// the attempts are used up.
pub fn gives_up(attempt: u32, max_attempts: u32) -> (r: bool)
    ensures
        r == (attempt >= max_attempts),
{
    attempt >= max_attempts
}

/// What is reported where a step failed at every attempt.
pub fn retry_failure(max_attempts: u32, error: &str) -> (r: String)
    ensures
        r@ == "Failed after "@ + decimal(max_attempts as nat) + " attempts: "@ + error@,
{
    let mut out: Vec<char> = Vec::new();
    push_str(&mut out, "Failed after ");
    crate::text::push_decimal(&mut out, max_attempts as usize);
    push_str(&mut out, " attempts: ");
    push_str(&mut out, error);
    string_of(&out)
}

/// The Dockerfile that is used where the sources bring none.
pub open spec fn default_dockerfile() -> Seq<char> {
    "FROM oven/bun:1 AS base\nWORKDIR /app\n\n# Install dependencies\nCOPY package.json bun.lockb* ./\nRUN bun install --frozen-lockfile\n\n# Copy source code\nCOPY . .\n\n# Build the application\nRUN bun run build\n\n# Production stage\nFROM oven/bun:1-slim\nWORKDIR /app\n\n# Copy built application\nCOPY --from=base /app/dist ./dist\nCOPY --from=base /app/package.json ./\nCOPY --from=base /app/node_modules ./node_modules\n\n# Expose port\nEXPOSE 8000\n\n# Health check\nHEALTHCHECK --interval=30s --timeout=3s --start-period=40s --retries=3 \\\n  CMD bun run -e \"fetch('http://localhost:8000/health').then(r=>r.ok?process.exit(0):process.exit(1)).catch(()=>process.exit(1))\"\n\n# Start the server\nCMD [\"bun\", \"run\", \"dist/index.js\"]\n"@
}

/// The Dockerfile that is used where the sources bring none.
pub fn generate_dockerfile() -> (r: String)
    ensures
        r@ == default_dockerfile(),
{
    "FROM oven/bun:1 AS base\nWORKDIR /app\n\n# Install dependencies\nCOPY package.json bun.lockb* ./\nRUN bun install --frozen-lockfile\n\n# Copy source code\nCOPY . .\n\n# Build the application\nRUN bun run build\n\n# Production stage\nFROM oven/bun:1-slim\nWORKDIR /app\n\n# Copy built application\nCOPY --from=base /app/dist ./dist\nCOPY --from=base /app/package.json ./\nCOPY --from=base /app/node_modules ./node_modules\n\n# Expose port\nEXPOSE 8000\n\n# Health check\nHEALTHCHECK --interval=30s --timeout=3s --start-period=40s --retries=3 \\\n  CMD bun run -e \"fetch('http://localhost:8000/health').then(r=>r.ok?process.exit(0):process.exit(1)).catch(()=>process.exit(1))\"\n\n# Start the server\nCMD [\"bun\", \"run\", \"dist/index.js\"]\n".to_owned()
}

} // verus!

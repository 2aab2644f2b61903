use vstd::prelude::*;
use vstd::string::StringExecFns;

verus! {

/// The account that the login action signs in with.
pub struct Credentials {
    pub username: String,
    pub password: String,
    pub domain: String,
}

/// The build flavor that the login worker is told about.
#[derive(Clone, Copy, Debug, PartialEq, Eq, Structural)]
pub enum Flavor {
    Development,
    Production,
}

/// One named parameter handed to the login worker's environment.
pub struct Param {
    pub name: String,
    pub value: String,
}

/// The value of `NODE_ENV` for a build flavor.
pub open spec fn node_env_spec(f: Flavor) -> Seq<char> {
    match f {
        Flavor::Development => "development"@,
        Flavor::Production => "production"@,
    }
}

/// The value of `NODE_ENV` for a build flavor.
pub fn node_env(f: Flavor) -> (r: &'static str)
    ensures
        r@ == node_env_spec(f),
{
    match f {
        Flavor::Development => "development",
        Flavor::Production => "production",
    }
}

/// The parameters of the login worker as names and values, in order.
pub open spec fn login_params_spec(url: Seq<char>, c: Credentials, f: Flavor) -> Seq<
    (Seq<char>, Seq<char>),
> {
    seq![
        ("NODE_ENV"@, node_env_spec(f)),
        ("XDWLAN_LOGIN_URL"@, url),
        ("XDWLAN_USERNAME"@, c.username@),
        ("XDWLAN_PASSWORD"@, c.password@),
        ("XDWLAN_DOMAIN"@, c.domain@),
    ]
}

/// A parameter list as names and values.
pub open spec fn params_view(ps: Seq<Param>) -> Seq<(Seq<char>, Seq<char>)> {
    ps.map_values(|p: Param| (p.name@, p.value@))
}

fn param(name: &str, value: &str) -> (p: Param)
    ensures
        p.name@ == name@,
        p.value@ == value@,
{
    Param { name: String::from_str(name), value: String::from_str(value) }
}

/// The named parameters that the login worker receives: the build flavor,
/// the login URL and the credentials. They go to its environment, never to
/// its command line.
pub fn login_params(url: &str, c: &Credentials, f: Flavor) -> (r: Vec<Param>)
    ensures
        params_view(r@) == login_params_spec(url@, *c, f),
{
    let mut r: Vec<Param> = Vec::new();
    r.push(param("NODE_ENV", node_env(f)));
    r.push(param("XDWLAN_LOGIN_URL", url));
    r.push(param("XDWLAN_USERNAME", c.username.as_str()));
    r.push(param("XDWLAN_PASSWORD", c.password.as_str()));
    r.push(param("XDWLAN_DOMAIN", c.domain.as_str()));
    assert(params_view(r@) =~= login_params_spec(url@, *c, f));
    r
}

/// How a run of the login worker ended.
pub enum WorkerOutcome {
    /// The worker could not be started; the text says why.
    LaunchFailed(String),
    /// The worker ran; `code` is its exit code, `None` when a signal ended it.
    Exited { code: Option<i32>, stdout: String, stderr: String },
}

/// Why a login attempt failed, with what the worker printed.
pub enum LoginFailure {
    LaunchFailed(String),
    Exited { code: Option<i32>, stdout: String, stderr: String },
}

/// A worker run succeeds exactly when the worker exited with code 0.
pub open spec fn worker_succeeded(o: WorkerOutcome) -> bool {
    o matches WorkerOutcome::Exited { code: Some(0), .. }
}

/// Turns a worker run into the login result: success on exit code 0, and
/// otherwise a failure that carries the outcome unchanged for diagnostics.
pub fn login_result(o: WorkerOutcome) -> (r: Result<(), LoginFailure>)
    ensures
        r is Ok <==> worker_succeeded(o),
        r matches Err(LoginFailure::LaunchFailed(m)) ==> o matches WorkerOutcome::LaunchFailed(
            m2,
        ) && m@ == m2@,
        r matches Err(LoginFailure::Exited { code, stdout, stderr }) ==> o matches WorkerOutcome::Exited {
            code: code2,
            stdout: out2,
            stderr: err2,
        } && code == code2 && stdout@ == out2@ && stderr@ == err2@,
        o is LaunchFailed ==> r matches Err(LoginFailure::LaunchFailed(_)),
{
    match o {
        WorkerOutcome::LaunchFailed(m) => Err(LoginFailure::LaunchFailed(m)),
        WorkerOutcome::Exited { code, stdout, stderr } => match code {
            Some(0) => Ok(()),
            _ => Err(LoginFailure::Exited { code, stdout, stderr }),
        },
    }
}

} // verus!

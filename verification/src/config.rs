//! Where the backend is found: base URL, prefix and the route of each
//! resource.

use vstd::prelude::*;

verus! {

/// Base URL, prefix and routes of the backend.
#[derive(Debug)]
pub struct Config {
    pub api_base_url: String,
    pub api_prefix: String,
    pub route_departments: String,
    pub route_employees: String,
    pub route_salary_grades: String,
}

/// The view of a [`Config`]: each text as its sequence of characters.
pub ghost struct ConfigView {
    pub api_base_url: Seq<char>,
    pub api_prefix: Seq<char>,
    pub route_departments: Seq<char>,
    pub route_employees: Seq<char>,
    pub route_salary_grades: Seq<char>,
}

impl View for Config {
    type V = ConfigView;

    open spec fn view(&self) -> ConfigView {
        ConfigView {
            api_base_url: self.api_base_url@,
            api_prefix: self.api_prefix@,
            route_departments: self.route_departments@,
            route_employees: self.route_employees@,
            route_salary_grades: self.route_salary_grades@,
        }
    }
}

impl Clone for Config {
    fn clone(&self) -> (res: Self)
        ensures
            res == *self,
    {
        Config {
            api_base_url: self.api_base_url.clone(),
            api_prefix: self.api_prefix.clone(),
            route_departments: self.route_departments.clone(),
            route_employees: self.route_employees.clone(),
            route_salary_grades: self.route_salary_grades.clone(),
        }
    }
}

impl Default for Config {
    fn default() -> (res: Self)
        ensures
            res@ == Config::spec_default(),
    {
        Config {
            api_base_url: String::from_str("http://localhost:8082"),
            api_prefix: String::from_str("/api"),
            route_departments: String::from_str("/departments"),
            route_employees: String::from_str("/employees"),
            route_salary_grades: String::from_str("/salary-grades"),
        }
    }
}

/// What the environment holds for each setting: `None` where the variable
/// is not set.
#[derive(Debug)]
pub struct Environment {
    pub api_base_url: Option<String>,
    pub api_prefix: Option<String>,
    pub route_departments: Option<String>,
    pub route_employees: Option<String>,
    pub route_salary_grades: Option<String>,
}

/// The view of a [`Environment`]: each text as its sequence of characters.
pub ghost struct EnvironmentView {
    pub api_base_url: Option<Seq<char>>,
    pub api_prefix: Option<Seq<char>>,
    pub route_departments: Option<Seq<char>>,
    pub route_employees: Option<Seq<char>>,
    pub route_salary_grades: Option<Seq<char>>,
}

impl View for Environment {
    type V = EnvironmentView;

    open spec fn view(&self) -> EnvironmentView {
        EnvironmentView {
            api_base_url: self.api_base_url.deep_view(),
            api_prefix: self.api_prefix.deep_view(),
            route_departments: self.route_departments.deep_view(),
            route_employees: self.route_employees.deep_view(),
            route_salary_grades: self.route_salary_grades.deep_view(),
        }
    }
}

/// The value that is set, or else the default.
pub open spec fn spec_setting(value: Option<Seq<char>>, default: Seq<char>) -> Seq<char> {
    match value {
        Some(text) => text,
        None => default,
    }
}

fn setting(value: Option<String>, default: &str) -> (res: String)
    ensures
        res@ == spec_setting(value.deep_view(), default@),
{
    match value {
        Some(text) => text,
        None => String::from_str(default),
    }
}

impl Config {
    /// The configuration used where nothing is set.
    pub open spec fn spec_default() -> ConfigView {
        ConfigView {
            api_base_url: "http://localhost:8082"@,
            api_prefix: "/api"@,
            route_departments: "/departments"@,
            route_employees: "/employees"@,
            route_salary_grades: "/salary-grades"@,
        }
    }

    /// The configuration that `load` makes of an environment.
    pub open spec fn spec_load(env: EnvironmentView) -> ConfigView {
        let d = Config::spec_default();
        ConfigView {
            api_base_url: spec_setting(env.api_base_url, d.api_base_url),
            api_prefix: spec_setting(env.api_prefix, d.api_prefix),
            route_departments: spec_setting(env.route_departments, d.route_departments),
            route_employees: spec_setting(env.route_employees, d.route_employees),
            route_salary_grades: spec_setting(env.route_salary_grades, d.route_salary_grades),
        }
    }

    /// Builds the configuration from what the environment holds: each
    /// setting that is present is taken as it is, each absent one gets its
    /// default.
    pub fn load(env: Environment) -> (res: Self)
        ensures
            res@ == Config::spec_load(env@),
    {
        Config {
            api_base_url: setting(env.api_base_url, "http://localhost:8082"),
            api_prefix: setting(env.api_prefix, "/api"),
            route_departments: setting(env.route_departments, "/departments"),
            route_employees: setting(env.route_employees, "/employees"),
            route_salary_grades: setting(env.route_salary_grades, "/salary-grades"),
        }
    }

    /// Base URL followed by the prefix.
    pub open spec fn spec_api_url(cfg: ConfigView) -> Seq<char> {
        cfg.api_base_url + cfg.api_prefix
    }

    /// Base URL followed by the prefix: what every route is appended to.
    pub fn api_url(&self) -> (res: String)
        ensures
            res@ == Config::spec_api_url(self@),
    {
        let mut url = self.api_base_url.clone();
        url.append(self.api_prefix.as_str());
        url
    }
}

} // verus!

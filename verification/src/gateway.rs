//! The remote entity gateway: which HTTP request stands for each operation
//! on a resource, and what a response to it means.
//!
//! Nothing here touches the network. A request is described by an
//! [`ApiRequest`]; whoever holds the connection sends it and hands back the
//! status and body, which the functions below turn into a result.

use vstd::prelude::*;
use crate::config::{Config, ConfigView};
use crate::models::{
    CreateDepartmentRequest, CreateDepartmentRequestView, CreateEmployeeRequest,
    CreateEmployeeRequestView, CreateSalaryGradeRequest, CreateSalaryGradeRequestView,
    CreateUserRequest, CreateUserRequestView, UpdateDepartmentRequest,
    UpdateDepartmentRequestView, UpdateEmployeeRequest, UpdateEmployeeRequestView,
    UpdateSalaryGradeRequest, UpdateSalaryGradeRequestView,
};
use crate::text::concat2;

verus! {

/// The HTTP method of a request.
#[derive(Debug, Clone, Copy, PartialEq, Eq, Structural)]
pub enum Method {
    Get,
    Post,
    Put,
    Delete,
}

/// What a request carries as its JSON body.
#[derive(Debug)]
pub enum Payload {
    Empty,
    CreateDepartment(CreateDepartmentRequest),
    UpdateDepartment(UpdateDepartmentRequest),
    CreateEmployee(CreateEmployeeRequest),
    UpdateEmployee(UpdateEmployeeRequest),
    CreateSalaryGrade(CreateSalaryGradeRequest),
    UpdateSalaryGrade(UpdateSalaryGradeRequest),
    CreateUser(CreateUserRequest),
    /// The employee who becomes the manager.
    Manager { manager_id: String },
    /// The salary grade that an employee gets.
    Grade { salary_grade_id: String },
}

/// The view of a [`Payload`]: each text as its sequence of characters.
pub ghost enum PayloadView {
    Empty,
    CreateDepartment(CreateDepartmentRequestView),
    UpdateDepartment(UpdateDepartmentRequestView),
    CreateEmployee(CreateEmployeeRequestView),
    UpdateEmployee(UpdateEmployeeRequestView),
    CreateSalaryGrade(CreateSalaryGradeRequestView),
    UpdateSalaryGrade(UpdateSalaryGradeRequestView),
    CreateUser(CreateUserRequestView),
    Manager { manager_id: Seq<char> },
    Grade { salary_grade_id: Seq<char> },
}

impl View for Payload {
    type V = PayloadView;

    open spec fn view(&self) -> PayloadView {
        match self {
            Payload::Empty => PayloadView::Empty,
            Payload::CreateDepartment(req) => PayloadView::CreateDepartment(req@),
            Payload::UpdateDepartment(req) => PayloadView::UpdateDepartment(req@),
            Payload::CreateEmployee(req) => PayloadView::CreateEmployee(req@),
            Payload::UpdateEmployee(req) => PayloadView::UpdateEmployee(req@),
            Payload::CreateSalaryGrade(req) => PayloadView::CreateSalaryGrade(req@),
            Payload::UpdateSalaryGrade(req) => PayloadView::UpdateSalaryGrade(req@),
            Payload::CreateUser(req) => PayloadView::CreateUser(req@),
            Payload::Manager { manager_id } => PayloadView::Manager { manager_id: manager_id@ },
            Payload::Grade { salary_grade_id } => PayloadView::Grade {
                salary_grade_id: salary_grade_id@,
            },
        }
    }
}

/// How the response to a request is judged.
#[derive(Debug, Clone, Copy, PartialEq, Eq, Structural)]
pub enum Expectation {
    /// The body holds records: a status outside 200..=299 is an error that
    /// names the status, and a body that does not decode is an error too.
    Records,
    /// A status outside 200..=299 is an error that names the status; the
    /// body is discarded.
    Success,
    /// A status outside 200..=299 is an error that names the status and
    /// carries the body's text.
    SuccessOrDetail,
}

/// One HTTP request of the client.
#[derive(Debug)]
pub struct ApiRequest {
    pub method: Method,
    pub url: String,
    pub body: Payload,
    pub expects: Expectation,
}

/// The view of a [`ApiRequest`]: each text as its sequence of characters.
pub ghost struct ApiRequestView {
    pub method: Method,
    pub url: Seq<char>,
    pub body: PayloadView,
    pub expects: Expectation,
}

impl View for ApiRequest {
    type V = ApiRequestView;

    open spec fn view(&self) -> ApiRequestView {
        ApiRequestView {
            method: self.method,
            url: self.url@,
            body: self.body@,
            expects: self.expects,
        }
    }
}

/// The one error of the gateway: a failed transport, a refused request and
/// an undecodable body all end as a message.
#[derive(Debug)]
pub struct ApiError {
    pub message: String,
}

impl View for ApiError {
    type V = Seq<char>;

    open spec fn view(&self) -> Seq<char> {
        self.message@
    }
}

impl DeepView for ApiError {
    type V = Seq<char>;

    open spec fn deep_view(&self) -> Seq<char> {
        self.message@
    }
}

impl Clone for ApiError {
    fn clone(&self) -> (res: Self)
        ensures
            res == *self,
    {
        ApiError { message: self.message.clone() }
    }
}

impl ApiError {
    /// The error with the given message.
    pub fn new(message: &str) -> (res: Self)
        ensures
            res@ == message@,
    {
        ApiError { message: String::from_str(message) }
    }

    /// The error's message.
    pub fn message(&self) -> (res: String)
        ensures
            res@ == self@,
    {
        self.message.clone()
    }
}

/// The text that `reqwest::StatusCode` displays for the status with this
/// code: the code, a space, and the status's canonical reason phrase or,
/// for a code that has none, a placeholder.
pub uninterp spec fn status_line(code: u16) -> Seq<char>;

/// Calls `reqwest::StatusCode::is_success` on the status with this code,
/// which tells whether the code lies in 200..=299.
#[verifier::external_body]
fn status_is_success(code: u16) -> (ok: bool)
    requires
        100 <= code <= 999,
    ensures
        ok == (200 <= code < 300),
{
    match reqwest::StatusCode::from_u16(code) {
        Ok(status) => status.is_success(),
        Err(_) => false,
    }
}

/// Formats the `reqwest::StatusCode` with this code through its `Display`
/// impl. The contract gives the text a name and says nothing of what it
/// holds.
#[verifier::external_body]
fn status_text(code: u16) -> (text: String)
    requires
        100 <= code <= 999,
    ensures
        text@ == status_line(code),
{
    match reqwest::StatusCode::from_u16(code) {
        Ok(status) => status.to_string(),
        Err(_) => String::new(),
    }
}

/// The status code of an HTTP response: a number from 100 to 999.
#[derive(Debug)]
pub struct HttpStatus {
    code: u16,
}

impl HttpStatus {
    #[verifier::type_invariant]
    spec fn in_range(self) -> bool {
        100 <= self.code <= 999
    }

    /// The numeric code.
    pub closed spec fn code(self) -> u16 {
        self.code
    }

    /// Whether a number is a status code.
    pub open spec fn spec_valid(code: u16) -> bool {
        100 <= code <= 999
    }

    /// Whether a status code says that the request succeeded.
    pub open spec fn spec_is_success(code: u16) -> bool {
        200 <= code < 300
    }

    /// The status with the given code, or `None` where the number is no
    /// status code.
    pub fn new(code: u16) -> (res: Option<HttpStatus>)
        ensures
            res is Some <==> HttpStatus::spec_valid(code),
            res is Some ==> res.unwrap().code() == code,
    {
        if 100 <= code && code <= 999 {
            Some(HttpStatus { code })
        } else {
            None
        }
    }

    /// The numeric code.
    pub fn as_u16(&self) -> (res: u16)
        ensures
            res == self.code(),
            HttpStatus::spec_valid(res),
    {
        proof {
            use_type_invariant(self);
        }
        self.code
    }

    /// Whether the status lies in 200..=299.
    pub fn is_success(&self) -> (res: bool)
        ensures
            res == HttpStatus::spec_is_success(self.code()),
    {
        proof {
            use_type_invariant(self);
        }
        status_is_success(self.code)
    }

    /// The status as it is written in an error message.
    pub fn text(&self) -> (res: String)
        ensures
            res@ == status_line(self.code()),
    {
        proof {
            use_type_invariant(self);
        }
        status_text(self.code)
    }
}

/// The message of the error that stands for a refused request and names
/// the status alone.
pub open spec fn spec_status_message(status: Seq<char>) -> Seq<char> {
    "API error "@ + status
}

/// The message of the error that stands for a refused request and carries
/// the body's text after the status.
pub open spec fn spec_refusal_message(status: Seq<char>, body: Seq<char>) -> Seq<char> {
    spec_status_message(status) + ": "@ + body
}

/// The message of the error that stands for a refused request, made of the
/// status as it is displayed.
pub fn status_message(status: &str) -> (res: String)
    ensures
        res@ == spec_status_message(status@),
{
    concat2("API error ", status)
}

/// The message of the error that stands for a refused request, made of the
/// status as it is displayed and of the response's body.
pub fn refusal_message(status: &str, body: &str) -> (res: String)
    ensures
        res@ == spec_refusal_message(status@, body@),
{
    let mut text = status_message(status);
    text.append(": ");
    text.append(body);
    text
}

/// The message of the error for a response with a status outside
/// 200..=299: the status, and the body's text where the request asks for
/// it.
pub open spec fn spec_refusal(expects: Expectation, code: u16, body: Seq<char>) -> Seq<char> {
    if expects == Expectation::SuccessOrDetail {
        spec_refusal_message(status_line(code), body)
    } else {
        spec_status_message(status_line(code))
    }
}

/// What a response with this status and body means for a call that sent no
/// records back: success exactly for a status in 200..=299.
pub open spec fn spec_completion(expects: Expectation, code: u16, body: Seq<char>) -> Result<
    (),
    Seq<char>,
> {
    if HttpStatus::spec_is_success(code) {
        Ok(())
    } else {
        Err(spec_refusal(expects, code, body))
    }
}

/// What a response with this status means for a call that asked for
/// records, given what decoding its body gave.
pub open spec fn spec_records<T>(code: u16, decoded: Result<T, Seq<char>>) -> Result<
    T,
    Seq<char>,
> {
    if HttpStatus::spec_is_success(code) {
        decoded
    } else {
        Err(spec_status_message(status_line(code)))
    }
}

/// The view of a result whose error is a gateway error.
pub open spec fn result_view<T>(r: Result<T, ApiError>) -> Result<T, Seq<char>> {
    match r {
        Ok(value) => Ok(value),
        Err(e) => Err(e@),
    }
}

/// The view of a result whose error is a plain message.
pub open spec fn decoded_view<T>(r: Result<T, String>) -> Result<T, Seq<char>> {
    match r {
        Ok(value) => Ok(value),
        Err(e) => Err(e@),
    }
}

impl ApiRequest {
    /// Judges the response to a request that sends no records back. The
    /// call has succeeded exactly if the status lies in 200..=299. The
    /// error of any other status names the status; it carries the body's
    /// text too where the request asks for it, and drops it otherwise.
    pub fn completion(&self, status: &HttpStatus, body: &str) -> (res: Result<(), ApiError>)
        ensures
            result_view(res) == spec_completion(self.expects, status.code(), body@),
    {
        if status.is_success() {
            Ok(())
        } else {
            let line = status.text();
            let detailed = match self.expects {
                Expectation::SuccessOrDetail => true,
                _ => false,
            };
            if detailed {
                Err(ApiError { message: refusal_message(line.as_str(), body) })
            } else {
                Err(ApiError { message: status_message(line.as_str()) })
            }
        }
    }
}

/// Judges the response to a request for records: with a status in
/// 200..=299 the result is what decoding the body gave, the decoder's
/// message becoming the error; with any other status it is an error that
/// names the status.
pub fn records<T>(status: &HttpStatus, decoded: Result<T, String>) -> (res: Result<T, ApiError>)
    ensures
        result_view(res) == spec_records(status.code(), decoded_view(decoded)),
{
    if status.is_success() {
        match decoded {
            Ok(value) => Ok(value),
            Err(message) => Err(ApiError { message }),
        }
    } else {
        let line = status.text();
        Err(ApiError { message: status_message(line.as_str()) })
    }
}

/// The URL of a resource's collection.
pub open spec fn spec_collection_url(cfg: ConfigView, route: Seq<char>) -> Seq<char> {
    Config::spec_api_url(cfg) + route
}

/// The URL of one record of a resource.
pub open spec fn spec_item_url(cfg: ConfigView, route: Seq<char>, id: Seq<char>) -> Seq<char> {
    spec_collection_url(cfg, route) + "/"@ + id
}

/// The URL of something that hangs below one record.
pub open spec fn spec_sub_url(
    cfg: ConfigView,
    route: Seq<char>,
    id: Seq<char>,
    sub: Seq<char>,
) -> Seq<char> {
    spec_item_url(cfg, route, id) + sub
}

/// The URL that lists employees.
pub open spec fn spec_employees_url(cfg: ConfigView, include_inactive: bool) -> Seq<char> {
    if include_inactive {
        spec_collection_url(cfg, cfg.route_employees) + "?include_inactive=true"@
    } else {
        spec_collection_url(cfg, cfg.route_employees)
    }
}

/// The URL of the user accounts, which lie outside the prefix.
pub open spec fn spec_users_url(cfg: ConfigView) -> Seq<char> {
    cfg.api_base_url + "/users"@
}

/// A request that reads.
pub open spec fn spec_get(url: Seq<char>) -> ApiRequestView {
    ApiRequestView {
        method: Method::Get,
        url,
        body: PayloadView::Empty,
        expects: Expectation::Records,
    }
}

/// A request that removes a record.
pub open spec fn spec_delete(url: Seq<char>) -> ApiRequestView {
    ApiRequestView {
        method: Method::Delete,
        url,
        body: PayloadView::Empty,
        expects: Expectation::Success,
    }
}

/// A request that sends a payload.
pub open spec fn spec_send(method: Method, url: Seq<char>, body: PayloadView) -> ApiRequestView {
    ApiRequestView { method, url, body, expects: Expectation::Success }
}

/// Maps each operation on a resource to the request that performs it.
#[derive(Debug)]
pub struct ApiClient {
    pub config: Config,
}

impl View for ApiClient {
    type V = ConfigView;

    open spec fn view(&self) -> ConfigView {
        self.config@
    }
}

impl Clone for ApiClient {
    fn clone(&self) -> (res: Self)
        ensures
            res == *self,
    {
        ApiClient { config: self.config.clone() }
    }
}

impl ApiClient {
    /// A gateway to the backend that `config` describes.
    pub fn new(config: Config) -> (res: Self)
        ensures
            res.config == config,
    {
        ApiClient { config }
    }

    fn collection_url(&self, route: &str) -> (res: String)
        ensures
            res@ == spec_collection_url(self@, route@),
    {
        let mut url = self.config.api_url();
        url.append(route);
        url
    }

    fn item_url(&self, route: &str, id: &str) -> (res: String)
        ensures
            res@ == spec_item_url(self@, route@, id@),
    {
        let mut url = self.collection_url(route);
        url.append("/");
        url.append(id);
        url
    }

    fn sub_url(&self, route: &str, id: &str, sub: &str) -> (res: String)
        ensures
            res@ == spec_sub_url(self@, route@, id@, sub@),
    {
        let mut url = self.item_url(route, id);
        url.append(sub);
        url
    }

    fn get(url: String) -> (res: ApiRequest)
        ensures
            res@ == spec_get(url@),
    {
        ApiRequest { method: Method::Get, url, body: Payload::Empty, expects: Expectation::Records }
    }

    fn delete(url: String) -> (res: ApiRequest)
        ensures
            res@ == spec_delete(url@),
    {
        ApiRequest {
            method: Method::Delete,
            url,
            body: Payload::Empty,
            expects: Expectation::Success,
        }
    }

    fn send(method: Method, url: String, body: Payload) -> (res: ApiRequest)
        ensures
            res@ == spec_send(method, url@, body@),
    {
        ApiRequest { method, url, body, expects: Expectation::Success }
    }

    /// Lists the departments.
    pub open spec fn spec_get_departments(cfg: ConfigView) -> ApiRequestView {
        spec_get(spec_collection_url(cfg, cfg.route_departments))
    }

    /// Lists the departments.
    pub fn get_departments(&self) -> (res: ApiRequest)
        ensures
            res@ == ApiClient::spec_get_departments(self@),
    {
        ApiClient::get(self.collection_url(self.config.route_departments.as_str()))
    }

    /// Reads the department with this id.
    pub open spec fn spec_get_department(cfg: ConfigView, id: Seq<char>) -> ApiRequestView {
        spec_get(spec_item_url(cfg, cfg.route_departments, id))
    }

    /// Reads the department with this id.
    pub fn get_department(&self, id: &str) -> (res: ApiRequest)
        ensures
            res@ == ApiClient::spec_get_department(self@, id@),
    {
        ApiClient::get(self.item_url(self.config.route_departments.as_str(), id))
    }

    /// Creates a department.
    pub open spec fn spec_create_department(cfg: ConfigView, req: CreateDepartmentRequestView) -> ApiRequestView {
        spec_send(
            Method::Post,
            spec_collection_url(cfg, cfg.route_departments),
            PayloadView::CreateDepartment(req),
        )
    }

    /// Creates a department.
    pub fn create_department(&self, req: &CreateDepartmentRequest) -> (res: ApiRequest)
        ensures
            res@ == ApiClient::spec_create_department(self@, req@),
    {
        ApiClient::send(
            Method::Post,
            self.collection_url(self.config.route_departments.as_str()),
            Payload::CreateDepartment(req.clone()),
        )
    }

    /// Updates the department with this id.
    pub open spec fn spec_update_department(cfg: ConfigView, id: Seq<char>, req: UpdateDepartmentRequestView) -> ApiRequestView {
        spec_send(
            Method::Put,
            spec_item_url(cfg, cfg.route_departments, id),
            PayloadView::UpdateDepartment(req),
        )
    }

    /// Updates the department with this id.
    pub fn update_department(&self, id: &str, req: &UpdateDepartmentRequest) -> (res: ApiRequest)
        ensures
            res@ == ApiClient::spec_update_department(self@, id@, req@),
    {
        ApiClient::send(
            Method::Put,
            self.item_url(self.config.route_departments.as_str(), id),
            Payload::UpdateDepartment(req.clone()),
        )
    }

    /// Deletes the department with this id.
    pub open spec fn spec_delete_department(cfg: ConfigView, id: Seq<char>) -> ApiRequestView {
        spec_delete(spec_item_url(cfg, cfg.route_departments, id))
    }

    /// Deletes the department with this id.
    pub fn delete_department(&self, id: &str) -> (res: ApiRequest)
        ensures
            res@ == ApiClient::spec_delete_department(self@, id@),
    {
        ApiClient::delete(self.item_url(self.config.route_departments.as_str(), id))
    }

    /// Lists the employees of the department with this id.
    pub open spec fn spec_get_employees_by_department(cfg: ConfigView, dept_id: Seq<char>) -> ApiRequestView {
        spec_get(
            spec_sub_url(cfg, cfg.route_departments, dept_id, "/employees"@),
        )
    }

    /// Lists the employees of the department with this id.
    pub fn get_employees_by_department(&self, dept_id: &str) -> (res: ApiRequest)
        ensures
            res@ == ApiClient::spec_get_employees_by_department(self@, dept_id@),
    {
        ApiClient::get(self.sub_url(self.config.route_departments.as_str(), dept_id, "/employees"))
    }

    /// Lists the employees: the active ones, or all of them where
    /// `include_inactive` is set.
    pub open spec fn spec_get_employees(cfg: ConfigView, include_inactive: bool) -> ApiRequestView {
        spec_get(spec_employees_url(cfg, include_inactive))
    }

    /// Lists the employees: the active ones, or all of them where
    /// `include_inactive` is set.
    pub fn get_employees(&self, include_inactive: bool) -> (res: ApiRequest)
        ensures
            res@ == ApiClient::spec_get_employees(self@, include_inactive),
    {
        let mut url = self.collection_url(self.config.route_employees.as_str());
        if include_inactive {
            url.append("?include_inactive=true");
        }
        ApiClient::get(url)
    }

    /// Reads the employee with this id.
    pub open spec fn spec_get_employee(cfg: ConfigView, id: Seq<char>) -> ApiRequestView {
        spec_get(spec_item_url(cfg, cfg.route_employees, id))
    }

    /// Reads the employee with this id.
    pub fn get_employee(&self, id: &str) -> (res: ApiRequest)
        ensures
            res@ == ApiClient::spec_get_employee(self@, id@),
    {
        ApiClient::get(self.item_url(self.config.route_employees.as_str(), id))
    }

    /// Creates an employee.
    pub open spec fn spec_create_employee(cfg: ConfigView, req: CreateEmployeeRequestView) -> ApiRequestView {
        spec_send(
            Method::Post,
            spec_collection_url(cfg, cfg.route_employees),
            PayloadView::CreateEmployee(req),
        )
    }

    /// Creates an employee.
    pub fn create_employee(&self, req: &CreateEmployeeRequest) -> (res: ApiRequest)
        ensures
            res@ == ApiClient::spec_create_employee(self@, req@),
    {
        ApiClient::send(
            Method::Post,
            self.collection_url(self.config.route_employees.as_str()),
            Payload::CreateEmployee(req.clone()),
        )
    }

    /// Updates the employee with this id. This is the one call whose error
    /// carries the text of a refusal's body.
    pub open spec fn spec_update_employee(cfg: ConfigView, id: Seq<char>, req: UpdateEmployeeRequestView) -> ApiRequestView {
        (ApiRequestView {
            expects: Expectation::SuccessOrDetail,
            ..spec_send(
                Method::Put,
                spec_item_url(cfg, cfg.route_employees, id),
                PayloadView::UpdateEmployee(req),
            )
        })
    }

    /// Updates the employee with this id. This is the one call whose error
    /// carries the text of a refusal's body.
    pub fn update_employee(&self, id: &str, req: &UpdateEmployeeRequest) -> (res: ApiRequest)
        ensures
            res@ == ApiClient::spec_update_employee(self@, id@, req@),
    {
        ApiRequest {
            method: Method::Put,
            url: self.item_url(self.config.route_employees.as_str(), id),
            body: Payload::UpdateEmployee(req.clone()),
            expects: Expectation::SuccessOrDetail,
        }
    }

    /// Deletes the employee with this id.
    pub open spec fn spec_delete_employee(cfg: ConfigView, id: Seq<char>) -> ApiRequestView {
        spec_delete(spec_item_url(cfg, cfg.route_employees, id))
    }

    /// Deletes the employee with this id.
    pub fn delete_employee(&self, id: &str) -> (res: ApiRequest)
        ensures
            res@ == ApiClient::spec_delete_employee(self@, id@),
    {
        ApiClient::delete(self.item_url(self.config.route_employees.as_str(), id))
    }

    /// Makes `manager_id` the manager of the employee `employee_id`.
    pub open spec fn spec_assign_manager(cfg: ConfigView, employee_id: Seq<char>, manager_id: Seq<char>) -> ApiRequestView {
        spec_send(
            Method::Put,
            spec_sub_url(cfg, cfg.route_employees, employee_id, "/manager"@),
            PayloadView::Manager { manager_id: manager_id },
        )
    }

    /// Makes `manager_id` the manager of the employee `employee_id`.
    pub fn assign_manager(&self, employee_id: &str, manager_id: &str) -> (res: ApiRequest)
        ensures
            res@ == ApiClient::spec_assign_manager(self@, employee_id@, manager_id@),
    {
        ApiClient::send(
            Method::Put,
            self.sub_url(self.config.route_employees.as_str(), employee_id, "/manager"),
            Payload::Manager { manager_id: String::from_str(manager_id) },
        )
    }

    /// Gives the employee `employee_id` the salary grade `grade_id`.
    pub open spec fn spec_assign_salary_grade(cfg: ConfigView, employee_id: Seq<char>, grade_id: Seq<char>) -> ApiRequestView {
        spec_send(
            Method::Put,
            spec_sub_url(cfg, cfg.route_employees, employee_id, "/salary-grade"@),
            PayloadView::Grade { salary_grade_id: grade_id },
        )
    }

    /// Gives the employee `employee_id` the salary grade `grade_id`.
    pub fn assign_salary_grade(&self, employee_id: &str, grade_id: &str) -> (res: ApiRequest)
        ensures
            res@ == ApiClient::spec_assign_salary_grade(self@, employee_id@, grade_id@),
    {
        ApiClient::send(
            Method::Put,
            self.sub_url(self.config.route_employees.as_str(), employee_id, "/salary-grade"),
            Payload::Grade { salary_grade_id: String::from_str(grade_id) },
        )
    }

    /// Lists the salary grades.
    pub open spec fn spec_get_salary_grades(cfg: ConfigView) -> ApiRequestView {
        spec_get(spec_collection_url(cfg, cfg.route_salary_grades))
    }

    /// Lists the salary grades.
    pub fn get_salary_grades(&self) -> (res: ApiRequest)
        ensures
            res@ == ApiClient::spec_get_salary_grades(self@),
    {
        ApiClient::get(self.collection_url(self.config.route_salary_grades.as_str()))
    }

    /// Reads the salary grade with this id.
    pub open spec fn spec_get_salary_grade(cfg: ConfigView, id: Seq<char>) -> ApiRequestView {
        spec_get(spec_item_url(cfg, cfg.route_salary_grades, id))
    }

    /// Reads the salary grade with this id.
    pub fn get_salary_grade(&self, id: &str) -> (res: ApiRequest)
        ensures
            res@ == ApiClient::spec_get_salary_grade(self@, id@),
    {
        ApiClient::get(self.item_url(self.config.route_salary_grades.as_str(), id))
    }

    /// Creates a salary grade.
    pub open spec fn spec_create_salary_grade(cfg: ConfigView, req: CreateSalaryGradeRequestView) -> ApiRequestView {
        spec_send(
            Method::Post,
            spec_collection_url(cfg, cfg.route_salary_grades),
            PayloadView::CreateSalaryGrade(req),
        )
    }

    /// Creates a salary grade.
    pub fn create_salary_grade(&self, req: &CreateSalaryGradeRequest) -> (res: ApiRequest)
        ensures
            res@ == ApiClient::spec_create_salary_grade(self@, req@),
    {
        ApiClient::send(
            Method::Post,
            self.collection_url(self.config.route_salary_grades.as_str()),
            Payload::CreateSalaryGrade(req.clone()),
        )
    }

    /// Updates the salary grade with this id.
    pub open spec fn spec_update_salary_grade(cfg: ConfigView, id: Seq<char>, req: UpdateSalaryGradeRequestView) -> ApiRequestView {
        spec_send(
            Method::Put,
            spec_item_url(cfg, cfg.route_salary_grades, id),
            PayloadView::UpdateSalaryGrade(req),
        )
    }

    /// Updates the salary grade with this id.
    pub fn update_salary_grade(&self, id: &str, req: &UpdateSalaryGradeRequest) -> (res:
        ApiRequest)
        ensures
            res@ == ApiClient::spec_update_salary_grade(self@, id@, req@),
    {
        ApiClient::send(
            Method::Put,
            self.item_url(self.config.route_salary_grades.as_str(), id),
            Payload::UpdateSalaryGrade(req.clone()),
        )
    }

    /// Deletes the salary grade with this id.
    pub open spec fn spec_delete_salary_grade(cfg: ConfigView, id: Seq<char>) -> ApiRequestView {
        spec_delete(spec_item_url(cfg, cfg.route_salary_grades, id))
    }

    /// Deletes the salary grade with this id.
    pub fn delete_salary_grade(&self, id: &str) -> (res: ApiRequest)
        ensures
            res@ == ApiClient::spec_delete_salary_grade(self@, id@),
    {
        ApiClient::delete(self.item_url(self.config.route_salary_grades.as_str(), id))
    }

    /// Lists the user accounts.
    pub open spec fn spec_get_users(cfg: ConfigView) -> ApiRequestView {
        spec_get(spec_users_url(cfg))
    }

    /// Lists the user accounts.
    pub fn get_users(&self) -> (res: ApiRequest)
        ensures
            res@ == ApiClient::spec_get_users(self@),
    {
        ApiClient::get(concat2(self.config.api_base_url.as_str(), "/users"))
    }

    /// Creates a user account.
    pub open spec fn spec_create_user(cfg: ConfigView, req: CreateUserRequestView) -> ApiRequestView {
        spec_send(Method::Post, spec_users_url(cfg), PayloadView::CreateUser(req))
    }

    /// Creates a user account.
    pub fn create_user(&self, req: &CreateUserRequest) -> (res: ApiRequest)
        ensures
            res@ == ApiClient::spec_create_user(self@, req@),
    {
        ApiClient::send(
            Method::Post,
            concat2(self.config.api_base_url.as_str(), "/users"),
            Payload::CreateUser(req.clone()),
        )
    }
}

} // verus!

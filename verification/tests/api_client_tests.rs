// The gateway: requests and the reading of responses.
use lf11a_project_frontend::config::Config;
use lf11a_project_frontend::gateway::{
    records, refusal_message, status_message, ApiClient, ApiError, Expectation, HttpStatus,
    Method, Payload,
};
use lf11a_project_frontend::models::{
    CreateDepartmentRequest, CreateEmployeeRequest, CreateSalaryGradeRequest, CreateUserRequest,
    Salary, UpdateDepartmentRequest, UpdateEmployeeRequest, UpdateSalaryGradeRequest,
};

fn client() -> ApiClient {
    ApiClient::new(Config::default())
}

fn assert_send<T: Send>() {}

#[test]
fn api_client_tests_test_api_client_creation() {
    let client = ApiClient::new(Config::default());
    drop(client);
}

#[test]
fn api_client_tests_test_api_client_clone() {
    let client1 = ApiClient::new(Config::default());
    let client2 = client1.clone();
    drop(client1);
    drop(client2);
}

#[test]
fn tests_test_api_client_creation() {
    let client = ApiClient::new(Config::default());
    let _ = client;
}

#[test]
fn tests_test_api_client_clone() {
    let client = ApiClient::new(Config::default());
    let cloned = client.clone();
    assert_eq!(cloned.config.api_base_url, client.config.api_base_url);
    let _ = (client, cloned);
}

#[test]
fn test_api_client_multiple_instances() {
    let client1 = ApiClient::new(Config::default());
    let client2 = ApiClient::new(Config::default());
    let client3 = ApiClient::new(Config::default());
    drop(client1);
    drop(client2);
    drop(client3);
}

#[test]
fn test_client_is_send() {
    assert_send::<ApiClient>();
}

#[test]
fn test_client_is_clone() {
    let client = ApiClient::new(Config::default());
    let _cloned = client.clone();
}

#[test]
fn department_requests() {
    let api = client();
    let list = api.get_departments();
    assert_eq!(list.method, Method::Get);
    assert_eq!(list.url, "http://localhost:8082/api/departments");
    assert!(matches!(list.body, Payload::Empty));
    assert_eq!(list.expects, Expectation::Records);

    let one = api.get_department("d-1");
    assert_eq!(one.method, Method::Get);
    assert_eq!(one.url, "http://localhost:8082/api/departments/d-1");

    let create = api.create_department(&CreateDepartmentRequest {
        name: "Engineering".to_string(),
        head_id: None,
    });
    assert_eq!(create.method, Method::Post);
    assert_eq!(create.url, "http://localhost:8082/api/departments");
    assert_eq!(create.expects, Expectation::Success);
    match create.body {
        Payload::CreateDepartment(req) => {
            assert_eq!(req.name, "Engineering");
            assert_eq!(req.head_id, None);
        }
        other => panic!("unexpected payload {:?}", other),
    }

    let update = api.update_department(
        "d-1",
        &UpdateDepartmentRequest { name: Some("Ops".to_string()), head_id: Some("e-2".to_string()) },
    );
    assert_eq!(update.method, Method::Put);
    assert_eq!(update.url, "http://localhost:8082/api/departments/d-1");
    match update.body {
        Payload::UpdateDepartment(req) => {
            assert_eq!(req.name, Some("Ops".to_string()));
            assert_eq!(req.head_id, Some("e-2".to_string()));
        }
        other => panic!("unexpected payload {:?}", other),
    }

    let delete = api.delete_department("d-1");
    assert_eq!(delete.method, Method::Delete);
    assert_eq!(delete.url, "http://localhost:8082/api/departments/d-1");
    assert!(matches!(delete.body, Payload::Empty));

    let members = api.get_employees_by_department("d-1");
    assert_eq!(members.method, Method::Get);
    assert_eq!(members.url, "http://localhost:8082/api/departments/d-1/employees");
}

#[test]
fn employee_listing_names_the_inactive_only_on_demand() {
    let api = client();
    let active = api.get_employees(false);
    assert_eq!(active.method, Method::Get);
    assert_eq!(active.url, "http://localhost:8082/api/employees");
    let all = api.get_employees(true);
    assert_eq!(all.method, Method::Get);
    assert_eq!(all.url, "http://localhost:8082/api/employees?include_inactive=true");
}

#[test]
fn employee_requests() {
    let api = client();
    let one = api.get_employee("e-1");
    assert_eq!(one.url, "http://localhost:8082/api/employees/e-1");

    let create = api.create_employee(&CreateEmployeeRequest {
        first_name: "Jane".to_string(),
        last_name: "Smith".to_string(),
        email: "jane@example.com".to_string(),
        department_id: None,
        manager_id: None,
        role: Some("Employee".to_string()),
        salary_grade_id: None,
        hire_date: None,
    });
    assert_eq!(create.method, Method::Post);
    assert_eq!(create.url, "http://localhost:8082/api/employees");
    assert_eq!(create.expects, Expectation::Success);
    match create.body {
        Payload::CreateEmployee(req) => {
            assert_eq!(req.first_name, "Jane");
            assert_eq!(req.role, Some("Employee".to_string()));
        }
        other => panic!("unexpected payload {:?}", other),
    }

    let update = api.update_employee("e-1", &UpdateEmployeeRequest::role_only("Admin"));
    assert_eq!(update.method, Method::Put);
    assert_eq!(update.url, "http://localhost:8082/api/employees/e-1");
    assert_eq!(update.expects, Expectation::SuccessOrDetail);
    match update.body {
        Payload::UpdateEmployee(req) => assert_eq!(req.role, Some("Admin".to_string())),
        other => panic!("unexpected payload {:?}", other),
    }

    let delete = api.delete_employee("e-1");
    assert_eq!(delete.method, Method::Delete);
    assert_eq!(delete.url, "http://localhost:8082/api/employees/e-1");

    let manager = api.assign_manager("e-1", "e-9");
    assert_eq!(manager.method, Method::Put);
    assert_eq!(manager.url, "http://localhost:8082/api/employees/e-1/manager");
    match manager.body {
        Payload::Manager { manager_id } => assert_eq!(manager_id, "e-9"),
        other => panic!("unexpected payload {:?}", other),
    }

    let grade = api.assign_salary_grade("e-1", "g-3");
    assert_eq!(grade.method, Method::Put);
    assert_eq!(grade.url, "http://localhost:8082/api/employees/e-1/salary-grade");
    match grade.body {
        Payload::Grade { salary_grade_id } => assert_eq!(salary_grade_id, "g-3"),
        other => panic!("unexpected payload {:?}", other),
    }
}

#[test]
fn salary_grade_requests() {
    let api = client();
    assert_eq!(api.get_salary_grades().url, "http://localhost:8082/api/salary-grades");
    assert_eq!(api.get_salary_grade("g-1").url, "http://localhost:8082/api/salary-grades/g-1");

    let create = api.create_salary_grade(&CreateSalaryGradeRequest {
        code: "E1".to_string(),
        base_salary: Salary::from_bits(50000.0_f64.to_bits()),
        description: None,
    });
    assert_eq!(create.method, Method::Post);
    assert_eq!(create.url, "http://localhost:8082/api/salary-grades");
    match create.body {
        Payload::CreateSalaryGrade(req) => {
            assert_eq!(req.code, "E1");
            assert_eq!(f64::from_bits(req.base_salary.bits), 50000.0);
        }
        other => panic!("unexpected payload {:?}", other),
    }

    let update = api.update_salary_grade(
        "g-1",
        &UpdateSalaryGradeRequest { code: Some("E2".to_string()), ..Default::default() },
    );
    assert_eq!(update.method, Method::Put);
    assert_eq!(update.url, "http://localhost:8082/api/salary-grades/g-1");
    assert_eq!(update.expects, Expectation::Success);

    let delete = api.delete_salary_grade("g-1");
    assert_eq!(delete.method, Method::Delete);
    assert_eq!(delete.url, "http://localhost:8082/api/salary-grades/g-1");
}

#[test]
fn user_requests_lie_outside_the_prefix() {
    let api = client();
    let list = api.get_users();
    assert_eq!(list.method, Method::Get);
    assert_eq!(list.url, "http://localhost:8082/users");
    let create = api.create_user(&CreateUserRequest {
        name: "Ann".to_string(),
        email: "ann@example.com".to_string(),
    });
    assert_eq!(create.method, Method::Post);
    assert_eq!(create.url, "http://localhost:8082/users");
    match create.body {
        Payload::CreateUser(req) => {
            assert_eq!(req.name, "Ann");
            assert_eq!(req.email, "ann@example.com");
        }
        other => panic!("unexpected payload {:?}", other),
    }
}

#[test]
fn status_codes_run_from_100_to_999() {
    assert!(HttpStatus::new(99).is_none());
    assert!(HttpStatus::new(0).is_none());
    assert!(HttpStatus::new(1000).is_none());
    assert_eq!(HttpStatus::new(100).unwrap().as_u16(), 100);
    assert_eq!(HttpStatus::new(999).unwrap().as_u16(), 999);
    assert_eq!(HttpStatus::new(404).unwrap().as_u16(), 404);
}

#[test]
fn success_is_a_status_from_200_to_299() {
    assert!(!HttpStatus::new(199).unwrap().is_success());
    assert!(HttpStatus::new(200).unwrap().is_success());
    assert!(HttpStatus::new(204).unwrap().is_success());
    assert!(HttpStatus::new(299).unwrap().is_success());
    assert!(!HttpStatus::new(300).unwrap().is_success());
    assert!(!HttpStatus::new(404).unwrap().is_success());
    assert!(!HttpStatus::new(500).unwrap().is_success());
}

#[test]
fn status_text_is_code_and_reason() {
    assert_eq!(HttpStatus::new(404).unwrap().text(), "404 Not Found");
    assert_eq!(HttpStatus::new(200).unwrap().text(), "200 OK");
    assert_eq!(HttpStatus::new(500).unwrap().text(), "500 Internal Server Error");
    assert_eq!(HttpStatus::new(799).unwrap().text(), "799 <unknown status code>");
}

#[test]
fn refusal_messages_name_the_status() {
    assert_eq!(status_message("404 Not Found"), "API error 404 Not Found");
    assert_eq!(status_message(""), "API error ");
    assert_eq!(refusal_message("404 Not Found", "no such row"), "API error 404 Not Found: no such row");
    assert_eq!(refusal_message("", ""), "API error : ");
}

#[test]
fn refused_employee_update_carries_the_body() {
    let api = client();
    let request = api.update_employee("e-1", &UpdateEmployeeRequest::role_only("Employee"));
    assert!(request.completion(&HttpStatus::new(200).unwrap(), "").is_ok());
    assert!(request.completion(&HttpStatus::new(204).unwrap(), "ignored").is_ok());
    let refused = request.completion(&HttpStatus::new(422).unwrap(), "bad role");
    match refused {
        Err(e) => assert_eq!(e.message(), "API error 422 Unprocessable Entity: bad role"),
        Ok(()) => panic!("a refused update must be an error"),
    }
}

#[test]
fn every_mutation_is_held_to_its_status() {
    let api = client();
    let department = CreateDepartmentRequest { name: "x".to_string(), head_id: None };
    let employee = CreateEmployeeRequest::default();
    let grade = CreateSalaryGradeRequest::default();
    let requests = vec![
        api.create_department(&department),
        api.update_department("d-1", &UpdateDepartmentRequest::default()),
        api.delete_department("d-1"),
        api.create_employee(&employee),
        api.delete_employee("e-1"),
        api.assign_manager("e-1", "e-2"),
        api.assign_salary_grade("e-1", "g-1"),
        api.create_salary_grade(&grade),
        api.update_salary_grade("g-1", &UpdateSalaryGradeRequest::default()),
        api.delete_salary_grade("g-1"),
        api.create_user(&CreateUserRequest { name: "a".to_string(), email: "b".to_string() }),
    ];
    for request in &requests {
        assert_eq!(request.expects, Expectation::Success);
        assert!(request.completion(&HttpStatus::new(200).unwrap(), "").is_ok());
        assert!(request.completion(&HttpStatus::new(201).unwrap(), "made").is_ok());
        assert!(request.completion(&HttpStatus::new(299).unwrap(), "").is_ok());
        for (code, message) in [
            (199u16, "API error 199 <unknown status code>"),
            (300, "API error 300 Multiple Choices"),
            (400, "API error 400 Bad Request"),
            (404, "API error 404 Not Found"),
            (500, "API error 500 Internal Server Error"),
        ] {
            match request.completion(&HttpStatus::new(code).unwrap(), "the body is dropped") {
                Err(e) => assert_eq!(e.message(), message),
                Ok(()) => panic!("status {} must be an error", code),
            }
        }
    }
}

#[test]
fn records_follow_status_and_decoding() {
    let ok = HttpStatus::new(200).unwrap();
    let got = records(&ok, Ok(vec![1u8, 2u8]));
    assert_eq!(got.unwrap(), vec![1u8, 2u8]);

    let undecodable: Result<Vec<u8>, ApiError> = records(&ok, Err("expected value".to_string()));
    assert_eq!(undecodable.unwrap_err().message(), "expected value");

    let refused: Result<Vec<u8>, ApiError> = records(&HttpStatus::new(503).unwrap(), Ok(vec![1u8]));
    assert_eq!(refused.unwrap_err().message(), "API error 503 Service Unavailable");

    let both: Result<Vec<u8>, ApiError> =
        records(&HttpStatus::new(404).unwrap(), Err("expected value".to_string()));
    assert_eq!(both.unwrap_err().message(), "API error 404 Not Found");
}

#[test]
fn error_carries_its_message() {
    let e = ApiError::new("connection refused");
    assert_eq!(e.message(), "connection refused");
    assert_eq!(e.clone().message, "connection refused");
}

use maintenance_core::assets::get_asset;
use maintenance_core::errors::AppError;
use maintenance_core::guard::Owned;
use maintenance_core::model::{Company, Role, User};
use maintenance_core::user::{
    company_register, user_login, user_register, CompanyRegisterInfo, RegisterAction,
    RegisterProgress, UserLoginInfo, UserRegisterInfo,
};
use maintenance_core::utils::{JwtClaims, Keys};

const NOW: i64 = 1_700_000_000;

/// Storage held in memory: what a caller of the library keeps behind it.
struct Store {
    companies: Vec<Company>,
    roles: Vec<Role>,
    users: Vec<User>,
}

impl Store {
    fn new() -> Store {
        Store { companies: Vec::new(), roles: Vec::new(), users: Vec::new() }
    }

    fn find_company(&self, code: &str) -> Option<Company> {
        self.companies.iter().find(|c| c.company_code == code).cloned()
    }

    fn register_company(&mut self, code: &str) -> Result<i32, AppError> {
        let info = CompanyRegisterInfo {
            company_code: code.to_string(),
            company_name: format!("{} Ltd", code),
            company_bid: "BID".to_string(),
            email: "office@example.org".to_string(),
            telephone: "555-0100".to_string(),
            address: None,
            customize_fileds_1: None,
            customize_fileds_2: None,
            customize_fileds_3: None,
            customize_fileds_4: None,
            customize_fileds_5: None,
        };
        let new = company_register(info, self.find_company(code), NOW + 31_536_000)?;
        let id = self.companies.len() as i32 + 1;
        self.companies.push(Company { id, company_code: new.company_code });
        Ok(id)
    }

    fn register_user(&mut self, code: &str, username: &str, password: &str) -> Result<(), AppError> {
        let info = UserRegisterInfo {
            company_code: code.to_string(),
            username: username.to_string(),
            password: password.to_string(),
            full_name: username.to_string(),
            telephone: "555-0101".to_string(),
            address: None,
            email: format!("{}@example.org", username),
            customize_fileds_1: None,
            customize_fileds_2: None,
            customize_fileds_3: None,
            customize_fileds_4: None,
            customize_fileds_5: None,
        };
        let mut progress = RegisterProgress::Start;
        let mut company_id = 0;
        loop {
            progress = match user_register(&info, progress) {
                RegisterAction::FindCompany { company_code } => {
                    let found = self.find_company(&company_code);
                    company_id = found.as_ref().map(|c| c.id).unwrap_or(0);
                    RegisterProgress::CompanyLookedUp(found)
                }
                RegisterAction::FindFirstRole { company_id } => RegisterProgress::RoleLookedUp {
                    company_id,
                    role: self.roles.iter().find(|r| r.company_id == company_id).cloned(),
                },
                RegisterAction::CreateRole(new) => {
                    let role = Role {
                        id: self.roles.len() as i32 + 1,
                        company_id: new.company_id,
                        role_name: new.role_name,
                        role_privileges: Some(Vec::new()),
                    };
                    self.roles.push(role.clone());
                    RegisterProgress::RoleCreated(role)
                }
                RegisterAction::CreateUser(new) => {
                    let id = self.users.len() as i32 + 1;
                    self.users.push(User {
                        id,
                        company_id,
                        role_id: new.role_id,
                        username: new.username,
                        password: new.password,
                        is_active: new.is_active,
                    });
                    RegisterProgress::UserCreated(id)
                }
                RegisterAction::Finish(result) => return result,
            };
        }
    }

    fn login(&self, username: &str, password: &str, keys: &Keys) -> Result<String, AppError> {
        let found = self.users.iter().find(|u| u.username == username).cloned();
        let info = UserLoginInfo { username: username.to_string(), password: password.to_string() };
        let envelope = user_login(&info, found, NOW, keys)?;
        Ok(envelope.data.unwrap().token)
    }
}

#[test]
fn end_to_end_scenario() {
    let keys = Keys::new(b"the startup secret");
    let mut store = Store::new();

    let acme = store.register_company("ACME").unwrap();
    assert_eq!(acme, 1);
    let other = store.register_company("B").unwrap();
    assert_eq!(other, 2);

    store.register_user("ACME", "alice", "pw1").unwrap();
    assert_eq!(store.roles.len(), 1);
    assert_eq!(store.roles[0].role_name, "admin");
    assert_eq!(store.roles[0].company_id, acme);
    assert_eq!(store.users[0].role_id, store.roles[0].id);
    assert_eq!(store.users[0].company_id, acme);

    let token = store.login("alice", "pw1", &keys).unwrap();
    let header = format!("Bearer {}", token);
    let claims = JwtClaims::from_request_parts(Some(&header), &keys, NOW + 60).unwrap();
    assert_eq!(claims.company_id, acme);
    assert_eq!(claims.user_id, store.users[0].id);
    assert_eq!(claims.exp, NOW + 1_209_600);

    let theirs = Owned { company_id: other, record: "asset of B".to_string() };
    assert_eq!(
        get_asset(Some(theirs), &claims),
        Err(AppError::Custom { status_code: 400, error: "Invalid request".to_string() })
    );
    let own = Owned { company_id: acme, record: "asset of ACME".to_string() };
    assert_eq!(get_asset(Some(own), &claims).unwrap().data, Some("asset of ACME".to_string()));
}

#[test]
fn second_user_of_a_company_gets_the_role_that_exists() {
    let mut store = Store::new();
    store.register_company("ACME").unwrap();
    store.register_user("ACME", "alice", "pw1").unwrap();
    store.register_user("ACME", "bob", "pw2").unwrap();
    assert_eq!(store.roles.len(), 1);
    assert_eq!(store.users[1].role_id, store.roles[0].id);
}

#[test]
fn registration_without_the_company_fails() {
    let mut store = Store::new();
    assert_eq!(
        store.register_user("NOPE", "alice", "pw1"),
        Err(AppError::Custom { status_code: 404, error: "company not found".to_string() })
    );
    assert!(store.users.is_empty());
    assert!(store.roles.is_empty());
}

#[test]
fn company_code_is_registered_once() {
    let mut store = Store::new();
    store.register_company("ACME").unwrap();
    assert_eq!(
        store.register_company("ACME"),
        Err(AppError::Custom { status_code: 400, error: "duplicate company code".to_string() })
    );
    assert_eq!(store.companies.len(), 1);
}

#[test]
fn login_with_another_password_gets_no_token() {
    let keys = Keys::new(b"the startup secret");
    let mut store = Store::new();
    store.register_company("ACME").unwrap();
    store.register_user("ACME", "alice", "pw1").unwrap();
    assert_eq!(
        store.login("alice", "pw2", &keys),
        Err(AppError::Custom { status_code: 403, error: "wrong password".to_string() })
    );
    assert_eq!(
        store.login("bob", "pw1", &keys),
        Err(AppError::Custom { status_code: 400, error: "user does not exist".to_string() })
    );
}

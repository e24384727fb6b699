use ppst_academy::config::academy_data::{get_academy_info, get_instructors, get_programs};
use ppst_academy::error::AppError;
use ppst_academy::handlers::homepage::{get_homepage, homepage_context};
use ppst_academy::models::academy::AcademyInfo;

#[test]
fn the_academy_has_its_name_and_tagline() {
    let info = get_academy_info();
    assert_eq!(info.name, "☆별을셀");
    assert_eq!(info.tagline, "Excellence in Mathematics Education");
    assert_eq!(info.logo_path, "/static/images/logo.svg");
    assert_eq!(info.programs.len(), 3);
    assert_eq!(info.instructors.len(), 3);
}

#[test]
fn the_default_is_the_academy_itself() {
    let info = AcademyInfo::default();
    assert_eq!(info.name, "☆별을셀");
    assert_eq!(info.tagline, "Excellence in Mathematics Education");
    assert_eq!(info.programs.len(), get_programs().len());
}

#[test]
fn the_programs_are_listed_in_order() {
    let programs = get_programs();
    let names: Vec<&str> = programs.iter().map(|p| p.name.as_str()).collect();
    assert_eq!(
        names,
        vec![
            "Full-Stack Web Development",
            "Systems Programming with Rust",
            "Data Science & Machine Learning"
        ]
    );
    assert_eq!(programs[1].icon_path.as_deref(), Some("/static/images/rust-icon.svg"));
    assert!(programs[2].description.starts_with("Explore data analysis"));
}

#[test]
fn the_instructors_are_listed_in_order() {
    let instructors = get_instructors();
    let names: Vec<&str> = instructors.iter().map(|i| i.name.as_str()).collect();
    assert_eq!(names, vec!["Dr. Jane Smith", "Alex Johnson", "Maria Garcia"]);
    assert_eq!(instructors[0].credentials, "Ph.D. in Computer Science, MIT");
    assert_eq!(instructors[1].photo_path, "/static/images/instructors/alex.jpg");
    assert!(instructors[2].bio.ends_with("practical ML applications."));
}

#[test]
fn the_name_is_split_into_star_base_and_accent() {
    let context = get_homepage();
    assert_eq!(context.academy_name, "☆별을셀");
    assert_eq!(context.academy_name_star, "☆");
    assert_eq!(context.academy_name_base, "별을");
    assert_eq!(context.academy_name_accent, "셀");
    assert_eq!(context.tagline, "Excellence in Mathematics Education");
}

#[test]
fn names_of_other_shapes_are_split_too() {
    let c = homepage_context("별을셀".to_string(), "t".to_string());
    assert_eq!((c.academy_name_star.as_str(), c.academy_name_base.as_str()), ("", "별을"));
    assert_eq!(c.academy_name_accent, "셀");
    let c = homepage_context("☆".to_string(), "t".to_string());
    assert_eq!(c.academy_name_star, "☆");
    assert_eq!(c.academy_name_base, "");
    assert_eq!(c.academy_name_accent, "");
    let c = homepage_context("".to_string(), "t".to_string());
    assert_eq!(c.academy_name_star, "");
    assert_eq!(c.academy_name_base, "");
    assert_eq!(c.academy_name_accent, "");
    let c = homepage_context("☆A".to_string(), "t".to_string());
    assert_eq!(c.academy_name_base, "");
    assert_eq!(c.academy_name_accent, "A");
    let c = homepage_context("A".to_string(), "tag".to_string());
    assert_eq!(c.academy_name_accent, "A");
    assert_eq!(c.tagline, "tag");
}

#[test]
fn a_failure_is_answered_with_a_page() {
    let cause = std::io::Error::new(std::io::ErrorKind::Other, "disk full");
    let response = AppError::Storage(cause).into_response();
    assert_eq!(response.status, 500);
    assert_eq!(response.body, "<h1>Error 500</h1><p>Failed to save data</p>");
    let response = AppError::Template("missing".to_string()).into_response();
    assert_eq!(response.body, "<h1>Error 500</h1><p>Failed to render page</p>");
}

#[test]
fn each_failure_has_its_message() {
    let io = |text: &str| std::io::Error::new(std::io::ErrorKind::Other, text.to_string());
    let json = serde_json::from_str::<serde_json::Value>("{").unwrap_err();
    assert_eq!(AppError::Template(String::new()).public_message(), "Failed to render page");
    assert_eq!(AppError::Storage(io("a")).public_message(), "Failed to save data");
    assert_eq!(AppError::Serialization(json).public_message(), "Data processing error");
    assert_eq!(AppError::Bind(io("b")).public_message(), "Server configuration error");
    assert_eq!(AppError::Server(io("c")).public_message(), "Server error");
}

#[test]
fn causes_turn_into_failures() {
    let storage: AppError = std::io::Error::new(std::io::ErrorKind::Other, "x").into();
    assert!(matches!(storage, AppError::Storage(_)));
    let json = serde_json::from_str::<serde_json::Value>("{").unwrap_err();
    let serialization: AppError = json.into();
    assert!(matches!(serialization, AppError::Serialization(_)));
}

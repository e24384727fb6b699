//! The academy's own data: its name, its courses and its teachers.

use crate::models::academy::{
    AcademyInfo, AcademyModel, Instructor, InstructorModel, Program, ProgramModel,
};
use vstd::prelude::*;
use vstd::string::StringExecFns;

verus! {

pub const ACADEMY_NAME: &'static str = "☆별을셀";

pub const ACADEMY_TAGLINE: &'static str = "Excellence in Mathematics Education";

pub const ACADEMY_LOGO: &'static str = "/static/images/logo.svg";

pub const WEB_NAME: &'static str = "Full-Stack Web Development";

pub const WEB_DESCRIPTION: &'static str =
    "Master modern web technologies including React, Node.js, databases, and cloud deployment. Build production-ready applications from front-end to back-end.";

pub const WEB_ICON: &'static str = "/static/images/web-icon.svg";

pub const RUST_NAME: &'static str = "Systems Programming with Rust";

pub const RUST_DESCRIPTION: &'static str =
    "Learn Rust programming language and systems-level development. Build high-performance, memory-safe applications for the modern web and beyond.";

pub const RUST_ICON: &'static str = "/static/images/rust-icon.svg";

pub const DATA_NAME: &'static str = "Data Science & Machine Learning";

pub const DATA_DESCRIPTION: &'static str =
    "Explore data analysis, visualization, and machine learning algorithms. Apply Python and modern ML frameworks to real-world datasets.";

pub const DATA_ICON: &'static str = "/static/images/data-icon.svg";

pub const JANE_NAME: &'static str = "Dr. Jane Smith";

pub const JANE_CREDENTIALS: &'static str = "Ph.D. in Computer Science, MIT";

pub const JANE_PHOTO: &'static str = "/static/images/instructors/jane.jpg";

pub const JANE_BIO: &'static str =
    "20+ years of experience in software engineering and education. Former Principal Engineer at Google. Passionate about making complex concepts accessible to all learners.";

pub const ALEX_NAME: &'static str = "Alex Johnson";

pub const ALEX_CREDENTIALS: &'static str = "M.S. Computer Science, Stanford University";

pub const ALEX_PHOTO: &'static str = "/static/images/instructors/alex.jpg";

pub const ALEX_BIO: &'static str =
    "Full-stack developer with 15 years in the industry. Built scalable systems at startups and Fortune 500 companies. Loves mentoring aspiring developers.";

pub const MARIA_NAME: &'static str = "Maria Garcia";

pub const MARIA_CREDENTIALS: &'static str = "B.S. Software Engineering, UC Berkeley";

pub const MARIA_PHOTO: &'static str = "/static/images/instructors/maria.jpg";

pub const MARIA_BIO: &'static str =
    "Data scientist and machine learning specialist. Previously at Netflix working on recommendation systems. Dedicated to teaching practical ML applications.";

/// The courses on offer, in the order in which the site lists them.
pub open spec fn programs() -> Seq<ProgramModel> {
    seq![
        ProgramModel { name: WEB_NAME@, description: WEB_DESCRIPTION@, icon_path: Some(WEB_ICON@) },
        ProgramModel {
            name: RUST_NAME@,
            description: RUST_DESCRIPTION@,
            icon_path: Some(RUST_ICON@),
        },
        ProgramModel {
            name: DATA_NAME@,
            description: DATA_DESCRIPTION@,
            icon_path: Some(DATA_ICON@),
        },
    ]
}

/// The teachers, in the order in which the site lists them.
pub open spec fn instructors() -> Seq<InstructorModel> {
    seq![
        InstructorModel {
            name: JANE_NAME@,
            credentials: JANE_CREDENTIALS@,
            photo_path: JANE_PHOTO@,
            bio: JANE_BIO@,
        },
        InstructorModel {
            name: ALEX_NAME@,
            credentials: ALEX_CREDENTIALS@,
            photo_path: ALEX_PHOTO@,
            bio: ALEX_BIO@,
        },
        InstructorModel {
            name: MARIA_NAME@,
            credentials: MARIA_CREDENTIALS@,
            photo_path: MARIA_PHOTO@,
            bio: MARIA_BIO@,
        },
    ]
}

/// The academy as the site presents it.
pub open spec fn academy_info() -> AcademyModel {
    AcademyModel {
        name: ACADEMY_NAME@,
        tagline: ACADEMY_TAGLINE@,
        logo_path: ACADEMY_LOGO@,
        programs: programs(),
        instructors: instructors(),
    }
}

fn program(name: &str, description: &str, icon_path: &str) -> (made: Program)
    ensures
        made@ == (ProgramModel {
            name: name@,
            description: description@,
            icon_path: Some(icon_path@),
        }),
{
    Program {
        name: String::from_str(name),
        description: String::from_str(description),
        icon_path: Some(String::from_str(icon_path)),
    }
}

fn instructor(name: &str, credentials: &str, photo_path: &str, bio: &str) -> (made: Instructor)
    ensures
        made@ == (InstructorModel {
            name: name@,
            credentials: credentials@,
            photo_path: photo_path@,
            bio: bio@,
        }),
{
    Instructor {
        name: String::from_str(name),
        credentials: String::from_str(credentials),
        photo_path: String::from_str(photo_path),
        bio: String::from_str(bio),
    }
}

/// The courses on offer.
pub fn get_programs() -> (list: Vec<Program>)
    ensures
        list@.map_values(|p: Program| p@) == programs(),
{
    let mut list: Vec<Program> = Vec::new();
    list.push(program(WEB_NAME, WEB_DESCRIPTION, WEB_ICON));
    list.push(program(RUST_NAME, RUST_DESCRIPTION, RUST_ICON));
    list.push(program(DATA_NAME, DATA_DESCRIPTION, DATA_ICON));
    assert(list@.map_values(|p: Program| p@) =~= programs());
    list
}

/// The teachers.
pub fn get_instructors() -> (list: Vec<Instructor>)
    ensures
        list@.map_values(|i: Instructor| i@) == instructors(),
{
    let mut list: Vec<Instructor> = Vec::new();
    list.push(instructor(JANE_NAME, JANE_CREDENTIALS, JANE_PHOTO, JANE_BIO));
    list.push(instructor(ALEX_NAME, ALEX_CREDENTIALS, ALEX_PHOTO, ALEX_BIO));
    list.push(instructor(MARIA_NAME, MARIA_CREDENTIALS, MARIA_PHOTO, MARIA_BIO));
    assert(list@.map_values(|i: Instructor| i@) =~= instructors());
    list
}

/// The academy as the site presents it.
pub fn get_academy_info() -> (info: AcademyInfo)
    ensures
        info@ == academy_info(),
{
    AcademyInfo {
        name: String::from_str(ACADEMY_NAME),
        tagline: String::from_str(ACADEMY_TAGLINE),
        logo_path: String::from_str(ACADEMY_LOGO),
        programs: get_programs(),
        instructors: get_instructors(),
    }
}

} // verus!

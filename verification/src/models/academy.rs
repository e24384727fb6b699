//! What the site says about the academy.

use crate::config::academy_data::{get_academy_info, academy_info};
use crate::models::contact::text_of;
use vstd::prelude::*;

verus! {

/// A course that the academy offers.
#[derive(Debug, Clone)]
pub struct Program {
    pub name: String,
    pub description: String,
    pub icon_path: Option<String>,
}

/// A course, by the characters of its texts.
pub struct ProgramModel {
    pub name: Seq<char>,
    pub description: Seq<char>,
    pub icon_path: Option<Seq<char>>,
}

impl View for Program {
    type V = ProgramModel;

    open spec fn view(&self) -> ProgramModel {
        ProgramModel {
            name: self.name@,
            description: self.description@,
            icon_path: text_of(self.icon_path),
        }
    }
}

/// A teacher of the academy.
#[derive(Debug, Clone)]
pub struct Instructor {
    pub name: String,
    pub credentials: String,
    pub photo_path: String,
    pub bio: String,
}

/// A teacher, by the characters of its texts.
pub struct InstructorModel {
    pub name: Seq<char>,
    pub credentials: Seq<char>,
    pub photo_path: Seq<char>,
    pub bio: Seq<char>,
}

impl View for Instructor {
    type V = InstructorModel;

    open spec fn view(&self) -> InstructorModel {
        InstructorModel {
            name: self.name@,
            credentials: self.credentials@,
            photo_path: self.photo_path@,
            bio: self.bio@,
        }
    }
}

/// The academy: its name, its tagline, and what it offers.
#[derive(Debug, Clone)]
pub struct AcademyInfo {
    pub name: String,
    pub tagline: String,
    pub logo_path: String,
    pub programs: Vec<Program>,
    pub instructors: Vec<Instructor>,
}

/// The academy, by the characters of its texts.
pub struct AcademyModel {
    pub name: Seq<char>,
    pub tagline: Seq<char>,
    pub logo_path: Seq<char>,
    pub programs: Seq<ProgramModel>,
    pub instructors: Seq<InstructorModel>,
}

impl View for AcademyInfo {
    type V = AcademyModel;

    open spec fn view(&self) -> AcademyModel {
        AcademyModel {
            name: self.name@,
            tagline: self.tagline@,
            logo_path: self.logo_path@,
            programs: self.programs@.map_values(|p: Program| p@),
            instructors: self.instructors@.map_values(|i: Instructor| i@),
        }
    }
}

impl AcademyInfo {
    /// The academy as the site presents it.
    pub fn default() -> (info: AcademyInfo)
        ensures
            info@ == academy_info(),
    {
        get_academy_info()
    }
}

} // verus!

use vstd::prelude::*;

use crate::text::texts;

verus! {

/// The contact person of a program.
pub struct ProgramManager {
    pub name: String,
    pub email: String,
    pub phone: String,
}

/// A link to one of the program's pages elsewhere.
pub struct SocialLink {
    pub platform: String,
    pub url: String,
}

/// One way of being admitted to the program.
pub struct AdmissionMethod {
    pub name: String,
    pub description: String,
}

/// A member of the program's teaching team.
pub struct TeamMember {
    pub name: String,
    pub position: String,
    pub degree: Option<String>,
}

/// A scholarship and what it pays.
pub struct Scholarship {
    pub name: String,
    pub amount: String,
}

/// A question with its answer.
pub struct FaqItem {
    pub question: String,
    pub answer: String,
}

/// Everything read from the page of one master's program.
pub struct MasterProgram {
    pub title: String,
    pub description: String,
    pub institute: String,
    pub study_form: String,
    pub duration: String,
    pub language: String,
    pub cost: String,
    pub dormitory: bool,
    pub military_center: bool,
    pub accreditation: bool,
    pub special_programs: Vec<String>,
    pub direction_code: String,
    pub direction_name: String,
    pub budget_places: u32,
    pub target_places: u32,
    pub contract_places: u32,
    pub manager: ProgramManager,
    pub social_links: Vec<SocialLink>,
    pub exam_dates: Vec<String>,
    pub admission_methods: Vec<AdmissionMethod>,
    pub career_opportunities: String,
    pub average_salary: String,
    pub team: Vec<TeamMember>,
    pub partners: Vec<String>,
    pub scholarships: Vec<Scholarship>,
    pub international_opportunities: Vec<String>,
    pub faq: Vec<FaqItem>,
}

/// Two strings, as characters.
pub type TextPair = (Seq<char>, Seq<char>);

/// A team member, as characters: name, position, degree.
pub type MemberView = (Seq<char>, Seq<char>, Option<Seq<char>>);

/// The content of a `MasterProgram`, as mathematical values.
pub struct ProgramView {
    pub title: Seq<char>,
    pub description: Seq<char>,
    pub institute: Seq<char>,
    pub study_form: Seq<char>,
    pub duration: Seq<char>,
    pub language: Seq<char>,
    pub cost: Seq<char>,
    pub dormitory: bool,
    pub military_center: bool,
    pub accreditation: bool,
    pub special_programs: Seq<Seq<char>>,
    pub direction_code: Seq<char>,
    pub direction_name: Seq<char>,
    pub budget_places: u32,
    pub target_places: u32,
    pub contract_places: u32,
    pub manager: (Seq<char>, Seq<char>, Seq<char>),
    pub social_links: Seq<TextPair>,
    pub exam_dates: Seq<Seq<char>>,
    pub admission_methods: Seq<TextPair>,
    pub career_opportunities: Seq<char>,
    pub average_salary: Seq<char>,
    pub team: Seq<MemberView>,
    pub partners: Seq<Seq<char>>,
    pub scholarships: Seq<TextPair>,
    pub international_opportunities: Seq<Seq<char>>,
    pub faq: Seq<TextPair>,
}

impl View for ProgramManager {
    type V = (Seq<char>, Seq<char>, Seq<char>);

    open spec fn view(&self) -> Self::V {
        (self.name@, self.email@, self.phone@)
    }
}

impl View for SocialLink {
    type V = TextPair;

    open spec fn view(&self) -> Self::V {
        (self.platform@, self.url@)
    }
}

impl View for AdmissionMethod {
    type V = TextPair;

    open spec fn view(&self) -> Self::V {
        (self.name@, self.description@)
    }
}

impl View for TeamMember {
    type V = MemberView;

    open spec fn view(&self) -> Self::V {
        (
            self.name@,
            self.position@,
            match self.degree {
                Some(d) => Some(d@),
                None => None,
            },
        )
    }
}

impl View for Scholarship {
    type V = TextPair;

    open spec fn view(&self) -> Self::V {
        (self.name@, self.amount@)
    }
}

impl View for FaqItem {
    type V = TextPair;

    open spec fn view(&self) -> Self::V {
        (self.question@, self.answer@)
    }
}

impl View for MasterProgram {
    type V = ProgramView;

    open spec fn view(&self) -> ProgramView {
        ProgramView {
            title: self.title@,
            description: self.description@,
            institute: self.institute@,
            study_form: self.study_form@,
            duration: self.duration@,
            language: self.language@,
            cost: self.cost@,
            dormitory: self.dormitory,
            military_center: self.military_center,
            accreditation: self.accreditation,
            special_programs: texts(self.special_programs@),
            direction_code: self.direction_code@,
            direction_name: self.direction_name@,
            budget_places: self.budget_places,
            target_places: self.target_places,
            contract_places: self.contract_places,
            manager: self.manager@,
            social_links: self.social_links@.map_values(|l: SocialLink| l@),
            exam_dates: texts(self.exam_dates@),
            admission_methods: self.admission_methods@.map_values(|m: AdmissionMethod| m@),
            career_opportunities: self.career_opportunities@,
            average_salary: self.average_salary@,
            team: self.team@.map_values(|m: TeamMember| m@),
            partners: texts(self.partners@),
            scholarships: self.scholarships@.map_values(|s: Scholarship| s@),
            international_opportunities: texts(self.international_opportunities@),
            faq: self.faq@.map_values(|f: FaqItem| f@),
        }
    }
}

} // verus!

//! Handles how every student detail is stored and encoded.
//!
//! The [`Gender`] and [`GradeLevel`] types are declared here, as well as the
//! [`Student`] struct, the [`StudentError`] type, and the validating
//! constructor [`Student::new`].

use vstd::prelude::*;

verus! {

/// Types of genders available for a student.
///
/// Male, female, and non-binary options are offered.
#[derive(Clone, Copy, Debug, PartialEq, Eq, Structural)]
pub enum Gender {
    Male,
    Female,
    NonBinary,
}

/// The display label of a gender variant.
pub open spec fn gender_label(g: Gender) -> Seq<char> {
    match g {
        Gender::Male => "Male"@,
        Gender::Female => "Female"@,
        Gender::NonBinary => "Non-binary"@,
    }
}

impl Gender {
    /// The stable human-readable name of this gender.
    pub fn display_name(&self) -> (r: &'static str)
        ensures
            r@ == gender_label(*self),
    {
        match self {
            Gender::Male => "Male",
            Gender::Female => "Female",
            Gender::NonBinary => "Non-binary",
        }
    }
}

/// Every gender variant maps to a non-empty display label.
pub proof fn lemma_gender_label_nonempty(g: Gender)
    ensures
        gender_label(g).len() > 0,
{
    reveal_strlit("Male");
    reveal_strlit("Female");
    reveal_strlit("Non-binary");
}

/// Distinct gender variants map to distinct display labels.
pub proof fn lemma_gender_label_injective(a: Gender, b: Gender)
    ensures
        gender_label(a) == gender_label(b) ==> a == b,
{
    reveal_strlit("Male");
    reveal_strlit("Female");
    reveal_strlit("Non-binary");
    assert(gender_label(Gender::Male).len() == 4);
    assert(gender_label(Gender::Female).len() == 6);
    assert(gender_label(Gender::NonBinary).len() == 10);
}

/// Grade levels available for a student.
///
/// A student can be as young as nursery to as advanced as doctorate. The list
/// follows the Philippine K-12 and tertiary curriculum.
#[derive(Clone, Copy, Debug, PartialEq, Eq, Structural)]
pub enum GradeLevel {
    Nursery,
    Kindergarten,
    Preparatory,
    Grade1,
    Grade2,
    Grade3,
    Grade4,
    Grade5,
    Grade6,
    Grade7,
    Grade8,
    Grade9,
    Grade10,
    Grade11,
    Grade12,
    CollegeFirstYear,
    CollegeSecondYear,
    CollegeThirdYear,
    CollegeFourthYear,
    Masteral,
    Doctorate,
}

/// The display label of a grade-level variant.
pub open spec fn grade_level_label(g: GradeLevel) -> Seq<char> {
    match g {
        GradeLevel::Nursery => "Nursery"@,
        GradeLevel::Kindergarten => "Kindergarten"@,
        GradeLevel::Preparatory => "Preparatory"@,
        GradeLevel::Grade1 => "Grade 1"@,
        GradeLevel::Grade2 => "Grade 2"@,
        GradeLevel::Grade3 => "Grade 3"@,
        GradeLevel::Grade4 => "Grade 4"@,
        GradeLevel::Grade5 => "Grade 5"@,
        GradeLevel::Grade6 => "Grade 6"@,
        GradeLevel::Grade7 => "Grade 7"@,
        GradeLevel::Grade8 => "Grade 8"@,
        GradeLevel::Grade9 => "Grade 9"@,
        GradeLevel::Grade10 => "Grade 10"@,
        GradeLevel::Grade11 => "Grade 11"@,
        GradeLevel::Grade12 => "Grade 12"@,
        GradeLevel::CollegeFirstYear => "First Year College"@,
        GradeLevel::CollegeSecondYear => "Second Year College"@,
        GradeLevel::CollegeThirdYear => "Third Year College"@,
        GradeLevel::CollegeFourthYear => "Fourth Year College"@,
        GradeLevel::Masteral => "Masteral"@,
        GradeLevel::Doctorate => "Doctorate"@,
    }
}

impl GradeLevel {
    /// The stable human-readable name of this grade level.
    pub fn display_name(&self) -> (r: &'static str)
        ensures
            r@ == grade_level_label(*self),
    {
        match self {
            GradeLevel::Nursery => "Nursery",
            GradeLevel::Kindergarten => "Kindergarten",
            GradeLevel::Preparatory => "Preparatory",
            GradeLevel::Grade1 => "Grade 1",
            GradeLevel::Grade2 => "Grade 2",
            GradeLevel::Grade3 => "Grade 3",
            GradeLevel::Grade4 => "Grade 4",
            GradeLevel::Grade5 => "Grade 5",
            GradeLevel::Grade6 => "Grade 6",
            GradeLevel::Grade7 => "Grade 7",
            GradeLevel::Grade8 => "Grade 8",
            GradeLevel::Grade9 => "Grade 9",
            GradeLevel::Grade10 => "Grade 10",
            GradeLevel::Grade11 => "Grade 11",
            GradeLevel::Grade12 => "Grade 12",
            GradeLevel::CollegeFirstYear => "First Year College",
            GradeLevel::CollegeSecondYear => "Second Year College",
            GradeLevel::CollegeThirdYear => "Third Year College",
            GradeLevel::CollegeFourthYear => "Fourth Year College",
            GradeLevel::Masteral => "Masteral",
            GradeLevel::Doctorate => "Doctorate",
        }
    }
}

/// Every grade-level variant maps to a non-empty display label.
pub proof fn lemma_grade_level_label_nonempty(g: GradeLevel)
    ensures
        grade_level_label(g).len() > 0,
{
    reveal_strlit("Nursery");
    reveal_strlit("Kindergarten");
    reveal_strlit("Preparatory");
    reveal_strlit("Grade 1");
    reveal_strlit("Grade 2");
    reveal_strlit("Grade 3");
    reveal_strlit("Grade 4");
    reveal_strlit("Grade 5");
    reveal_strlit("Grade 6");
    reveal_strlit("Grade 7");
    reveal_strlit("Grade 8");
    reveal_strlit("Grade 9");
    reveal_strlit("Grade 10");
    reveal_strlit("Grade 11");
    reveal_strlit("Grade 12");
    reveal_strlit("First Year College");
    reveal_strlit("Second Year College");
    reveal_strlit("Third Year College");
    reveal_strlit("Fourth Year College");
    reveal_strlit("Masteral");
    reveal_strlit("Doctorate");
}

/// Distinct grade-level variants map to distinct display labels.
#[verifier::rlimit(30)]
pub proof fn lemma_grade_level_label_injective(a: GradeLevel, b: GradeLevel)
    ensures
        grade_level_label(a) == grade_level_label(b) ==> a == b,
{
    reveal_strlit("Nursery");
    reveal_strlit("Kindergarten");
    reveal_strlit("Preparatory");
    reveal_strlit("Grade 1");
    reveal_strlit("Grade 2");
    reveal_strlit("Grade 3");
    reveal_strlit("Grade 4");
    reveal_strlit("Grade 5");
    reveal_strlit("Grade 6");
    reveal_strlit("Grade 7");
    reveal_strlit("Grade 8");
    reveal_strlit("Grade 9");
    reveal_strlit("Grade 10");
    reveal_strlit("Grade 11");
    reveal_strlit("Grade 12");
    reveal_strlit("First Year College");
    reveal_strlit("Second Year College");
    reveal_strlit("Third Year College");
    reveal_strlit("Fourth Year College");
    reveal_strlit("Masteral");
    reveal_strlit("Doctorate");
    assert(grade_level_label(GradeLevel::Nursery)[0] == 'N');
    assert(grade_level_label(GradeLevel::Kindergarten).len() == 12);
    assert(grade_level_label(GradeLevel::Preparatory).len() == 11);
    assert(grade_level_label(GradeLevel::Grade1)[6] == '1');
    assert(grade_level_label(GradeLevel::Grade2)[6] == '2');
    assert(grade_level_label(GradeLevel::Grade3)[6] == '3');
    assert(grade_level_label(GradeLevel::Grade4)[6] == '4');
    assert(grade_level_label(GradeLevel::Grade5)[6] == '5');
    assert(grade_level_label(GradeLevel::Grade6)[6] == '6');
    assert(grade_level_label(GradeLevel::Grade7)[6] == '7');
    assert(grade_level_label(GradeLevel::Grade8)[6] == '8');
    assert(grade_level_label(GradeLevel::Grade9)[6] == '9');
    assert(grade_level_label(GradeLevel::Grade10)[7] == '0');
    assert(grade_level_label(GradeLevel::Grade11)[7] == '1');
    assert(grade_level_label(GradeLevel::Grade12)[7] == '2');
    assert(grade_level_label(GradeLevel::Grade10)[0] == 'G');
    assert(grade_level_label(GradeLevel::CollegeFirstYear)[0] == 'F');
    assert(grade_level_label(GradeLevel::CollegeSecondYear)[0] == 'S');
    assert(grade_level_label(GradeLevel::CollegeThirdYear)[0] == 'T');
    assert(grade_level_label(GradeLevel::CollegeFourthYear)[0] == 'F');
    assert(grade_level_label(GradeLevel::CollegeSecondYear).len() == 19);
    assert(grade_level_label(GradeLevel::CollegeFourthYear).len() == 19);
    assert(grade_level_label(GradeLevel::Masteral)[0] == 'M');
    assert(grade_level_label(GradeLevel::Doctorate).len() == 9);
    assert(grade_level_label(GradeLevel::Nursery).len() == 7);
    assert(grade_level_label(GradeLevel::Grade1).len() == 7);
    assert(grade_level_label(GradeLevel::Masteral).len() == 8);
    assert(grade_level_label(GradeLevel::Grade10).len() == 8);
    assert(grade_level_label(GradeLevel::CollegeFirstYear).len() == 18);
    assert(grade_level_label(GradeLevel::CollegeThirdYear).len() == 18);
}

/// The reason a student record was rejected at construction: one variant per
/// field bound that can be crossed.
#[derive(Clone, Copy, Debug, PartialEq, Eq, Structural)]
pub enum StudentError {
    /// The year of birth exceeds 9999.
    YearOutOfRange,
    /// The packed month and day of birth exceeds 1231 (December 31).
    DateAfterDecember31,
    /// The packed month and day of birth is below 101 (January 1).
    DateBeforeJanuary1,
    /// The LRN exceeds 999999999999 (12 digits).
    LrnOutOfRange,
    /// The school ID exceeds 999999 (6 digits).
    SchoolIdOutOfRange,
    /// The last grade average exceeds 100.
    GradeAverageOutOfRange,
}

/// The descriptive message of a rejection, naming the offending field and the
/// bound that was crossed.
pub open spec fn error_message(e: StudentError) -> Seq<char> {
    match e {
        StudentError::YearOutOfRange => "Invalid year of birth. Exceeds 9999."@,
        StudentError::DateAfterDecember31 => "Invalid month and/or day of birth. Date exceeds December 31 (`1231`)."@,
        StudentError::DateBeforeJanuary1 => "Invalid month and/or day of birth. Date is earlier than January 1 (`0101`)."@,
        StudentError::LrnOutOfRange => "Invalid LRN. Exceeds 12 digits."@,
        StudentError::SchoolIdOutOfRange => "Invalid school ID. Exceeds 6 digits."@,
        StudentError::GradeAverageOutOfRange => "Invalid last grade average. Exceeds 100."@,
    }
}

impl StudentError {
    /// The stable human-readable diagnostic for this rejection.
    pub fn message(&self) -> (r: &'static str)
        ensures
            r@ == error_message(*self),
    {
        match self {
            StudentError::YearOutOfRange => "Invalid year of birth. Exceeds 9999.",
            StudentError::DateAfterDecember31 => "Invalid month and/or day of birth. Date exceeds December 31 (`1231`).",
            StudentError::DateBeforeJanuary1 => "Invalid month and/or day of birth. Date is earlier than January 1 (`0101`).",
            StudentError::LrnOutOfRange => "Invalid LRN. Exceeds 12 digits.",
            StudentError::SchoolIdOutOfRange => "Invalid school ID. Exceeds 6 digits.",
            StudentError::GradeAverageOutOfRange => "Invalid last grade average. Exceeds 100.",
        }
    }
}

/// Whether all numeric fields of a prospective record lie inside their
/// declared bounds.
pub open spec fn fields_valid(
    year_of_birth: u16,
    month_and_day_of_birth: u16,
    lrn: u64,
    school_id: u32,
    last_grade_average: u8,
) -> bool {
    &&& year_of_birth <= 9999
    &&& 101 <= month_and_day_of_birth <= 1231
    &&& lrn <= 999999999999
    &&& school_id <= 999999
    &&& last_grade_average <= 100
}

/// The outcome of the sequential range checks: the first bound crossed, in
/// check order, or `None` when every field is inside its bound.
pub open spec fn first_violation(
    year_of_birth: u16,
    month_and_day_of_birth: u16,
    lrn: u64,
    school_id: u32,
    last_grade_average: u8,
) -> Option<StudentError> {
    if year_of_birth > 9999 {
        Some(StudentError::YearOutOfRange)
    } else if month_and_day_of_birth > 1231 {
        Some(StudentError::DateAfterDecember31)
    } else if month_and_day_of_birth < 101 {
        Some(StudentError::DateBeforeJanuary1)
    } else if lrn > 999999999999 {
        Some(StudentError::LrnOutOfRange)
    } else if school_id > 999999 {
        Some(StudentError::SchoolIdOutOfRange)
    } else if last_grade_average > 100 {
        Some(StudentError::GradeAverageOutOfRange)
    } else {
        None
    }
}

/// The structure responsible for managing student data.
#[derive(Debug)]
pub struct Student {
    /// The student's first name as indicated in their birth certificate.
    pub first_name: String,
    /// The student's last name as indicated in their birth certificate.
    pub last_name: String,
    /// The year the student is born, in YYYY format (e.g. 2009); at most 9999.
    pub year_of_birth: u16,
    /// The month and day the student is born, packed in MMDD format
    /// (e.g. 420 for April 20); between 101 and 1231.
    pub month_and_day_of_birth: u16,
    /// The gender of the student. See [`Gender`] for more details.
    pub gender: Gender,
    /// The Learner's Reference Number (LRN) of the student: a national
    /// identifier of at most twelve digits, assigned once by the school that
    /// first registered the student and rarely changed thereafter.
    pub lrn: u64,
    /// The school ID of the student's current school; at most six digits.
    pub school_id: u32,
    /// The current grade level of the student. See [`GradeLevel`].
    pub grade_level: GradeLevel,
    /// The grade average from the student's previous grade level, from 0 to
    /// 100; zero for students without one (e.g. nursery students).
    pub last_grade_average: u8,
}

impl Student {
    /// The record invariant: every numeric field lies inside its declared
    /// bound. Established by [`Student::new`] and preserved thereafter, since
    /// the library offers no mutation.
    pub open spec fn wf(&self) -> bool {
        fields_valid(
            self.year_of_birth,
            self.month_and_day_of_birth,
            self.lrn,
            self.school_id,
            self.last_grade_average,
        )
    }

    /// Validates the numeric fields in a fixed order and, when all bounds
    /// hold, returns the record holding exactly the given values; otherwise
    /// returns the first bound crossed.
    pub fn new(
        first_name: String,
        last_name: String,
        year_of_birth: u16,
        month_and_day_of_birth: u16,
        gender: Gender,
        lrn: u64,
        school_id: u32,
        grade_level: GradeLevel,
        last_grade_average: u8,
    ) -> (r: Result<Self, StudentError>)
        ensures
            r is Ok <==> fields_valid(
                year_of_birth,
                month_and_day_of_birth,
                lrn,
                school_id,
                last_grade_average,
            ),
            r matches Ok(s) ==> {
                &&& s.first_name == first_name
                &&& s.last_name == last_name
                &&& s.year_of_birth == year_of_birth
                &&& s.month_and_day_of_birth == month_and_day_of_birth
                &&& s.gender == gender
                &&& s.lrn == lrn
                &&& s.school_id == school_id
                &&& s.grade_level == grade_level
                &&& s.last_grade_average == last_grade_average
                &&& s.wf()
            },
            r matches Err(e) ==> Some(e) == first_violation(
                year_of_birth,
                month_and_day_of_birth,
                lrn,
                school_id,
                last_grade_average,
            ),
    {
        if year_of_birth > 9999 {
            Err(StudentError::YearOutOfRange)
        } else if month_and_day_of_birth > 1231 {
            Err(StudentError::DateAfterDecember31)
        } else if month_and_day_of_birth < 101 {
            Err(StudentError::DateBeforeJanuary1)
        } else if lrn > 999999999999 {
            Err(StudentError::LrnOutOfRange)
        } else if school_id > 999999 {
            Err(StudentError::SchoolIdOutOfRange)
        } else if last_grade_average > 100 {
            Err(StudentError::GradeAverageOutOfRange)
        } else {
            Ok(Student {
                first_name,
                last_name,
                year_of_birth,
                month_and_day_of_birth,
                gender,
                lrn,
                school_id,
                grade_level,
                last_grade_average,
            })
        }
    }
}

} // verus!

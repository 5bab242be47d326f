use student_database::data::{Gender, GradeLevel, Student, StudentError};

fn new_student(
    year_of_birth: u16,
    month_and_day_of_birth: u16,
    lrn: u64,
    school_id: u32,
    last_grade_average: u8,
) -> Result<Student, StudentError> {
    Student::new(
        "Juana".to_string(),
        "Dela Cruz".to_string(),
        year_of_birth,
        month_and_day_of_birth,
        Gender::Female,
        lrn,
        school_id,
        GradeLevel::Grade11,
        last_grade_average,
    )
}

#[test]
fn valid_inputs_round_trip() {
    let student = Student::new(
        "Juana".to_string(),
        "Dela Cruz".to_string(),
        2009,
        420,
        Gender::Female,
        123456789012,
        654321,
        GradeLevel::Grade11,
        97,
    )
    .expect("all fields are inside their bounds");
    assert_eq!(student.first_name, "Juana");
    assert_eq!(student.last_name, "Dela Cruz");
    assert_eq!(student.year_of_birth, 2009);
    assert_eq!(student.month_and_day_of_birth, 420);
    assert_eq!(student.gender, Gender::Female);
    assert_eq!(student.lrn, 123456789012);
    assert_eq!(student.school_id, 654321);
    assert_eq!(student.grade_level, GradeLevel::Grade11);
    assert_eq!(student.last_grade_average, 97);
}

#[test]
fn boundary_values_succeed() {
    assert!(new_student(9999, 101, 999999999999, 999999, 100).is_ok());
    assert!(new_student(0, 1231, 0, 0, 0).is_ok());
}

#[test]
fn year_10000_fails() {
    assert_eq!(
        new_student(10000, 420, 1, 1, 90).unwrap_err(),
        StudentError::YearOutOfRange
    );
}

#[test]
fn month_day_1232_fails() {
    assert_eq!(
        new_student(2009, 1232, 1, 1, 90).unwrap_err(),
        StudentError::DateAfterDecember31
    );
}

#[test]
fn month_day_0_fails() {
    assert_eq!(
        new_student(2009, 0, 1, 1, 90).unwrap_err(),
        StudentError::DateBeforeJanuary1
    );
}

#[test]
fn month_day_100_fails() {
    assert_eq!(
        new_student(2009, 100, 1, 1, 90).unwrap_err(),
        StudentError::DateBeforeJanuary1
    );
}

#[test]
fn lrn_thirteen_digits_fails() {
    assert_eq!(
        new_student(2009, 420, 1_000_000_000_000, 1, 90).unwrap_err(),
        StudentError::LrnOutOfRange
    );
}

#[test]
fn school_id_seven_digits_fails() {
    assert_eq!(
        new_student(2009, 420, 1, 1_000_000, 90).unwrap_err(),
        StudentError::SchoolIdOutOfRange
    );
}

#[test]
fn grade_average_101_fails() {
    assert_eq!(
        new_student(2009, 420, 1, 1, 101).unwrap_err(),
        StudentError::GradeAverageOutOfRange
    );
}

#[test]
fn grade_average_100_succeeds() {
    assert!(new_student(2009, 420, 1, 1, 100).is_ok());
}

#[test]
fn first_violation_in_check_order_wins() {
    // Every field out of range: the year check is reported first.
    assert_eq!(
        new_student(10000, 1232, 1_000_000_000_000, 1_000_000, 101).unwrap_err(),
        StudentError::YearOutOfRange
    );
    // Year valid, both date bounds and later checks violated: the upper date
    // bound is reported before the LRN.
    assert_eq!(
        new_student(9999, 1232, 1_000_000_000_000, 1_000_000, 101).unwrap_err(),
        StudentError::DateAfterDecember31
    );
    assert_eq!(
        new_student(9999, 0, 1_000_000_000_000, 1_000_000, 101).unwrap_err(),
        StudentError::DateBeforeJanuary1
    );
    assert_eq!(
        new_student(9999, 420, 1_000_000_000_000, 1_000_000, 101).unwrap_err(),
        StudentError::LrnOutOfRange
    );
    assert_eq!(
        new_student(9999, 420, 1, 1_000_000, 101).unwrap_err(),
        StudentError::SchoolIdOutOfRange
    );
}

#[test]
fn gender_display_names() {
    assert_eq!(Gender::Male.display_name(), "Male");
    assert_eq!(Gender::Female.display_name(), "Female");
    assert_eq!(Gender::NonBinary.display_name(), "Non-binary");
}

#[test]
fn grade_level_display_names() {
    assert_eq!(GradeLevel::Nursery.display_name(), "Nursery");
    assert_eq!(GradeLevel::Kindergarten.display_name(), "Kindergarten");
    assert_eq!(GradeLevel::Preparatory.display_name(), "Preparatory");
    assert_eq!(GradeLevel::Grade1.display_name(), "Grade 1");
    assert_eq!(GradeLevel::Grade2.display_name(), "Grade 2");
    assert_eq!(GradeLevel::Grade3.display_name(), "Grade 3");
    assert_eq!(GradeLevel::Grade4.display_name(), "Grade 4");
    assert_eq!(GradeLevel::Grade5.display_name(), "Grade 5");
    assert_eq!(GradeLevel::Grade6.display_name(), "Grade 6");
    assert_eq!(GradeLevel::Grade7.display_name(), "Grade 7");
    assert_eq!(GradeLevel::Grade8.display_name(), "Grade 8");
    assert_eq!(GradeLevel::Grade9.display_name(), "Grade 9");
    assert_eq!(GradeLevel::Grade10.display_name(), "Grade 10");
    assert_eq!(GradeLevel::Grade11.display_name(), "Grade 11");
    assert_eq!(GradeLevel::Grade12.display_name(), "Grade 12");
    assert_eq!(
        GradeLevel::CollegeFirstYear.display_name(),
        "First Year College"
    );
    assert_eq!(
        GradeLevel::CollegeSecondYear.display_name(),
        "Second Year College"
    );
    assert_eq!(
        GradeLevel::CollegeThirdYear.display_name(),
        "Third Year College"
    );
    assert_eq!(
        GradeLevel::CollegeFourthYear.display_name(),
        "Fourth Year College"
    );
    assert_eq!(GradeLevel::Masteral.display_name(), "Masteral");
    assert_eq!(GradeLevel::Doctorate.display_name(), "Doctorate");
}

#[test]
fn display_names_nonempty_and_unique() {
    let genders = [Gender::Male, Gender::Female, Gender::NonBinary];
    for g in &genders {
        assert!(!g.display_name().is_empty());
    }
    let levels = [
        GradeLevel::Nursery,
        GradeLevel::Kindergarten,
        GradeLevel::Preparatory,
        GradeLevel::Grade1,
        GradeLevel::Grade2,
        GradeLevel::Grade3,
        GradeLevel::Grade4,
        GradeLevel::Grade5,
        GradeLevel::Grade6,
        GradeLevel::Grade7,
        GradeLevel::Grade8,
        GradeLevel::Grade9,
        GradeLevel::Grade10,
        GradeLevel::Grade11,
        GradeLevel::Grade12,
        GradeLevel::CollegeFirstYear,
        GradeLevel::CollegeSecondYear,
        GradeLevel::CollegeThirdYear,
        GradeLevel::CollegeFourthYear,
        GradeLevel::Masteral,
        GradeLevel::Doctorate,
    ];
    for (i, a) in levels.iter().enumerate() {
        assert!(!a.display_name().is_empty());
        for b in &levels[i + 1..] {
            assert_ne!(a.display_name(), b.display_name());
        }
    }
}

#[test]
fn error_messages_name_field_and_bound() {
    assert_eq!(
        StudentError::YearOutOfRange.message(),
        "Invalid year of birth. Exceeds 9999."
    );
    assert_eq!(
        StudentError::DateAfterDecember31.message(),
        "Invalid month and/or day of birth. Date exceeds December 31 (`1231`)."
    );
    assert_eq!(
        StudentError::DateBeforeJanuary1.message(),
        "Invalid month and/or day of birth. Date is earlier than January 1 (`0101`)."
    );
    assert_eq!(
        StudentError::LrnOutOfRange.message(),
        "Invalid LRN. Exceeds 12 digits."
    );
    assert_eq!(
        StudentError::SchoolIdOutOfRange.message(),
        "Invalid school ID. Exceeds 6 digits."
    );
    assert_eq!(
        StudentError::GradeAverageOutOfRange.message(),
        "Invalid last grade average. Exceeds 100."
    );
}

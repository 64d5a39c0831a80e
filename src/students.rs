//! A student's grades, each checked before it is kept.
use vstd::prelude::*;
use vstd::string::StringExecFns;

verus! {

/// Why a value was turned away.
#[derive(Debug)]
pub enum AppError {
    /// A text could not be read as the value it should hold.
    ParseError(String),
    /// A value lies outside what its field admits.
    ValidationError(String),
}

/// Whether `grade` is one that a student can receive: 0 to 100.
pub open spec fn valid_grade(grade: int) -> bool {
    0 <= grade <= 100
}

/// The message that comes with a refused grade.
pub open spec fn grade_range_message() -> Seq<char> {
    "Grade must be between 0 and 100"@
}

/// The sum of a sequence of grades.
pub open spec fn total(grades: Seq<i32>) -> int
    decreases grades.len(),
{
    if grades.len() == 0 {
        0
    } else {
        total(grades.drop_last()) + grades.last()
    }
}

/// A student and the grades received so far, in order.
#[derive(Debug)]
pub struct Student {
    name: String,
    grades: Vec<i32>,
}

impl Student {
    /// Every grade that the student holds is a valid one.
    pub closed spec fn wf(&self) -> bool {
        forall|i: int| 0 <= i < self.grades@.len() ==> valid_grade(#[trigger] self.grades@[i] as int)
    }

    /// The student's name.
    pub closed spec fn name_seq(&self) -> Seq<char> {
        self.name@
    }

    /// The grades received so far, in order.
    pub closed spec fn grade_seq(&self) -> Seq<i32> {
        self.grades@
    }

    /// A student with no grades.
    pub fn new(name: String) -> (r: Student)
        ensures
            r.name_seq() == name@,
            r.grade_seq() == Seq::<i32>::empty(),
            r.wf(),
    {
        Student { name, grades: Vec::new() }
    }

    /// Keeps `grade` when it lies in 0 to 100; else refuses it, with the
    /// grades unchanged.
    pub fn add_grade(&mut self, grade: i32) -> (r: Result<(), AppError>)
        requires
            old(self).wf(),
        ensures
            final(self).wf(),
            final(self).name_seq() == old(self).name_seq(),
            valid_grade(grade as int) ==> r is Ok && final(self).grade_seq() == old(self).grade_seq().push(grade),
            !valid_grade(grade as int) ==> r is Err && final(self).grade_seq() == old(self).grade_seq(),
            r matches Err(e) ==> e matches AppError::ValidationError(m) && m@ == grade_range_message(),
    {
        proof {
            reveal_strlit("Grade must be between 0 and 100");
        }
        if grade < 0 || grade > 100 {
            return Err(AppError::ValidationError(String::from_str("Grade must be between 0 and 100")));
        }
        self.grades.push(grade);
        Ok(())
    }

    /// The grades received so far, in order.
    pub fn grades(&self) -> (r: &Vec<i32>)
        ensures
            r@ == self.grade_seq(),
    {
        &self.grades
    }

    /// The sum of the student's grades.
    pub fn grade_total(&self) -> (r: i128)
        requires
            self.wf(),
        ensures
            r == total(self.grade_seq()),
    {
        let mut sum: i128 = 0;
        let mut i: usize = 0;
        while i < self.grades.len()
            invariant
                self.wf(),
                i <= self.grades@.len(),
                sum == total(self.grades@.subrange(0, i as int)),
                0 <= sum <= 100 * i,
            decreases self.grades.len() - i,
        {
            proof {
                assert(self.grades@.subrange(0, i + 1).drop_last() =~= self.grades@.subrange(0, i as int));
                assert(valid_grade(self.grades@[i as int] as int));
            }
            sum = sum + self.grades[i] as i128;
            i = i + 1;
        }
        assert(self.grades@.subrange(0, i as int) =~= self.grades@);
        sum
    }
}

} // verus!

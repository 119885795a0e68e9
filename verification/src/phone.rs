//! Optional data chained through several layers: a person may have a job,
//! the job may have a phone number, and the number may have an area code.

use vstd::prelude::*;

verus! {

/// A person, who may or may not hold a job.
pub struct Person {
    pub job: Option<Job>,
}

/// A job, which may or may not list a phone number.
#[derive(Clone, Copy)]
pub struct Job {
    pub phone_number: Option<PhoneNumber>,
}

/// A phone number with an optional area code.
#[derive(Clone, Copy)]
pub struct PhoneNumber {
    pub area_code: Option<u8>,
    pub number: u32,
}

impl Person {
    /// The area code of the person's work phone: present exactly when the
    /// person has a job, the job has a phone number, and that number
    /// carries an area code.
    pub fn work_phone_area_code(&self) -> (r: Option<u8>)
        ensures
            r == (match self.job {
                Some(job) => match job.phone_number {
                    Some(phone) => phone.area_code,
                    None => None::<u8>,
                },
                None => None::<u8>,
            }),
    {
        match self.job {
            Some(job) => match job.phone_number {
                Some(phone) => phone.area_code,
                None => None,
            },
            None => None,
        }
    }
}

} // verus!

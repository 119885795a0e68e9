use snippets::closures::apply;
use snippets::closures::apply_to_3;
use snippets::closures::testing;
use snippets::layered::layered_option;
use snippets::matching::match_numbers;
use snippets::parity::EvenNumber;
use snippets::phone::Job;
use snippets::phone::Person;
use snippets::phone::PhoneNumber;

#[test]
fn chain_question_mark() {
    let person = Person {
        job: Some(Job {
            phone_number: Some(PhoneNumber {
                area_code: Some(69),
                number: 4206969,
            }),
        }),
    };

    assert_eq!(69, person.work_phone_area_code().unwrap())
}

#[test]
fn broken_chains_give_nothing() {
    assert_eq!(None, Person { job: None }.work_phone_area_code());
    let jobless_phone = Person {
        job: Some(Job { phone_number: None }),
    };
    assert_eq!(None, jobless_phone.work_phone_area_code());
    let codeless = Person {
        job: Some(Job {
            phone_number: Some(PhoneNumber {
                area_code: None,
                number: 4206969,
            }),
        }),
    };
    assert_eq!(None, codeless.work_phone_area_code());
}

#[test]
fn try_from_test() {
    // Try from
    assert_eq!(EvenNumber::try_from(8), Ok(EvenNumber(8)));
    assert_eq!(EvenNumber::try_from(5), Err(()));

    // Try into
    let result: Result<EvenNumber, ()> = 8i32.try_into();
    assert_eq!(result, Ok(EvenNumber(8)));
    let result: Result<EvenNumber, ()> = 5i32.try_into();
    assert_eq!(result, Err(()));
}

#[test]
fn negative_parity() {
    assert_eq!(EvenNumber::try_from(-4), Ok(EvenNumber(-4)));
    assert_eq!(EvenNumber::try_from(-7), Err(()));
    assert_eq!(EvenNumber::try_from(0), Ok(EvenNumber(0)));
}

#[test]
fn test_loops() {
    let mut counter = 0;
    'outer: loop {
        counter += 1;
        println!("Enteredd the outer loop");

        loop {
            println!("Entered the inne loop");

            counter += 1;

            if counter == 10 {
                break 'outer;
            }
        }
    }

    assert_eq!(counter, 10)
}

#[test]
fn test_macth() {
    let number = 13;

    assert_eq!(match_numbers(3), String::from("This is a prime"));
    assert_eq!(match_numbers(number), String::from("A 13teen"));
    assert_eq!(match_numbers(1), String::from("One"));
    assert_eq!(match_numbers(20), String::from("Ain't special"));
}

#[test]
fn teens_and_primes() {
    assert_eq!("A 19teen", match_numbers(19));
    assert_eq!("A 14teen", match_numbers(14));
    assert_eq!("This is a prime", match_numbers(11));
    assert_eq!("Ain't special", match_numbers(12));
    assert_eq!("Ain't special", match_numbers(-5));
}

#[test]
fn test_one() {
    let (one, two) = testing();
    assert_eq!(one, 43);
    assert_eq!(two, 44);
}

#[test]
fn closures_as_parameters() {
    let mut log = Vec::new();
    log.push(0);
    let diary = || {
        drop(log);
    };
    apply(diary);

    let double = |x| 2 * x;
    assert_eq!(6, apply_to_3(double));
}

#[test]
fn layered_option_runs() {
    layered_option();
}

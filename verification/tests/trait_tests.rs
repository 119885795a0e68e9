use snippets::animals::Animal;
use snippets::animals::Sheep;
use snippets::fibonacci::fibonacci;
use snippets::generics::blue;
use snippets::generics::red;
use snippets::generics::usage;
use snippets::generics::BlueJay;
use snippets::generics::Cardinal;

#[test]
fn test_empty_bounds() {
    let cardinal = Cardinal;
    let blue_jay = BlueJay;

    assert_eq!("blue", blue(&blue_jay));
    assert_eq!("red", red(&cardinal));
}

#[test]
fn test_traits() {
    let dolly: Sheep = Animal::new("Dolly");

    assert_eq!("baaaaaah!", dolly.noise())
}

#[test]
fn shearing_changes_the_noise() {
    let mut dolly: Sheep = Animal::new("Dolly");
    assert!(!dolly.is_naked());
    assert_eq!("Dolly", dolly.name());
    dolly._shear();
    assert!(dolly.is_naked());
    assert_eq!("baaaaaah?", dolly.noise());
    dolly._shear();
    assert!(dolly.is_naked());
}

#[test]
fn double_drop_consumes_both() {
    usage();
}

#[test]
fn fibonacci_stream() {
    let mut stream = fibonacci();
    let mut collected = Vec::new();
    for _ in 0..10 {
        collected.push(stream.next().unwrap());
    }
    assert_eq!(vec![0, 1, 1, 2, 3, 5, 8, 13, 21, 34], collected);
}

use primer::chance::random;

#[test]
fn random_draws_numbers() {
    let first = random();
    let mut differs = false;
    for _ in 0..64 {
        if random() != first {
            differs = true;
        }
    }
    assert!(differs);
}

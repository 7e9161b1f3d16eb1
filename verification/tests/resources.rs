use colony_core::resources::Resources;

#[test]
fn test_resources_creation() {
    let resources = Resources::new(100, 50, 25);
    assert_eq!(resources.minerals, 100);
    assert_eq!(resources.gas, 50);
    assert_eq!(resources.energy, 25);
}

#[test]
fn test_resources_zero() {
    let resources = Resources::zero();
    assert_eq!(resources.minerals, 0);
    assert_eq!(resources.gas, 0);
    assert_eq!(resources.energy, 0);
}

#[test]
fn test_can_afford_sufficient_resources() {
    let resources = Resources::new(100, 50, 25);
    let cost = Resources::new(50, 25, 10);
    assert!(resources.can_afford(&cost));
}

#[test]
fn test_can_afford_insufficient_resources() {
    let resources = Resources::new(100, 50, 25);
    let cost = Resources::new(150, 25, 10);
    assert!(!resources.can_afford(&cost));
}

#[test]
fn test_subtract_success() {
    let resources = Resources::new(100, 50, 25);
    let cost = Resources::new(50, 25, 10);
    let result = resources.subtract(&cost).expect("Should have enough resources");

    assert_eq!(result.minerals, 50);
    assert_eq!(result.gas, 25);
    assert_eq!(result.energy, 15);
}

#[test]
fn test_subtract_failure() {
    let resources = Resources::new(100, 50, 25);
    let cost = Resources::new(150, 25, 10);
    let result = resources.subtract(&cost);

    assert_eq!(result, Some(Resources::new(0, 25, 15)));
    assert!(!resources.can_afford(&cost));
}

#[test]
fn test_add_resources() {
    let resources = Resources::new(100, 50, 25);
    let production = Resources::new(20, 10, 5);
    let result = resources.add(&production);

    assert_eq!(result.minerals, 120);
    assert_eq!(result.gas, 60);
    assert_eq!(result.energy, 30);
}

use cpu_applet::text::{push_decimal, push_percent};
use cpu_applet::{aggregate, aggregate_text, core_text, PowerManager};

#[test]
fn aggregate_of_empty_sample_is_zero() {
    assert_eq!(aggregate(&vec![]), 0);
}

#[test]
fn aggregate_of_single_core_is_its_reading() {
    assert_eq!(aggregate(&vec![5000]), 5000);
}

#[test]
fn aggregate_of_idle_and_busy_core_is_half() {
    assert_eq!(aggregate(&vec![0, 10000]), 5000);
}

#[test]
fn aggregate_is_the_mean() {
    assert_eq!(aggregate(&vec![1000, 2000, 3000, 6000]), 3000);
    assert_eq!(aggregate(&vec![3333, 3333, 3334]), 3333);
}

#[test]
fn aggregate_rounds_halves_up() {
    assert_eq!(aggregate(&vec![1, 2]), 2);
    assert_eq!(aggregate(&vec![0, 0, 1]), 0);
    assert_eq!(aggregate(&vec![0, 1, 1]), 1);
}

#[test]
fn aggregate_of_largest_readings_does_not_overflow() {
    assert_eq!(aggregate(&vec![u32::MAX, u32::MAX, u32::MAX]), u32::MAX);
    assert_eq!(aggregate(&vec![u32::MAX, u32::MAX - 1]), u32::MAX);
}

#[test]
fn percent_has_two_decimals() {
    let mut s = String::new();
    push_percent(&mut s, 3333);
    assert_eq!(s, "33.33%");
    let mut s = String::new();
    push_percent(&mut s, 5);
    assert_eq!(s, "0.05%");
    let mut s = String::new();
    push_percent(&mut s, 10000);
    assert_eq!(s, "100.00%");
    let mut s = String::from("x");
    push_percent(&mut s, 0);
    assert_eq!(s, "x0.00%");
}

#[test]
fn decimal_digits() {
    let mut s = String::new();
    push_decimal(&mut s, 0);
    assert_eq!(s, "0");
    let mut s = String::from("n=");
    push_decimal(&mut s, 1234567890);
    assert_eq!(s, "n=1234567890");
    let mut s = String::new();
    push_decimal(&mut s, u64::MAX);
    assert_eq!(s, u64::MAX.to_string());
}

#[test]
fn aggregate_line_text() {
    assert_eq!(aggregate_text(&vec![0, 10000]), "Aggregate CPU usage: 50.00%");
    assert_eq!(aggregate_text(&vec![]), "Aggregate CPU usage: 0.00%");
}

#[test]
fn core_line_numbers_from_one() {
    assert_eq!(core_text(0, 3333), "CPU 1: 33.33%");
    assert_eq!(core_text(9, 1234), "CPU 10: 12.34%");
}

#[test]
fn format_gives_one_aggregate_and_one_line_per_core() {
    let lines = cpu_applet::display::format(&vec![3333, 10000, 7]);
    assert_eq!(
        lines,
        vec![
            "Aggregate CPU usage: 44.47%".to_string(),
            "CPU 1: 33.33%".to_string(),
            "CPU 2: 100.00%".to_string(),
            "CPU 3: 0.07%".to_string(),
        ]
    );
}

#[test]
fn format_of_empty_sample() {
    assert_eq!(cpu_applet::display::format(&vec![]), vec!["Aggregate CPU usage: 0.00%".to_string()]);
}

#[test]
fn manager_starts_empty() {
    let m = PowerManager::new();
    assert!(m.cpu_usages().is_empty());
    assert_eq!(m.calculate_avg_cpu_usage(), 0);
    assert_eq!(m.view_lines(), vec!["Aggregate CPU usage: 0.00%".to_string()]);
    let d = PowerManager::default();
    assert!(d.cpu_usages().is_empty());
}

#[test]
fn manager_tick_replaces_sample() {
    let mut m = PowerManager::new();
    m.tick(vec![2500, 7500]);
    assert_eq!(m.cpu_usages(), &vec![2500, 7500]);
    assert_eq!(m.calculate_avg_cpu_usage(), 5000);
    m.tick(vec![100]);
    assert_eq!(m.cpu_usages(), &vec![100]);
    assert_eq!(m.calculate_avg_cpu_usage(), 100);
    assert_eq!(
        m.view_lines(),
        vec!["Aggregate CPU usage: 1.00%".to_string(), "CPU 1: 1.00%".to_string()]
    );
}

use microwave_gui::MicrowaveGUI;
use std::time::Instant;

#[test]
fn test_batch_update_performance() {
    let mut gui = MicrowaveGUI::default();
    let start = Instant::now();

    for i in 0..10000 {
        gui.begin_update();
        gui.set_frequency(format!("{}", i));
        gui.set_z0(format!("{}", i * 2));
        gui.set_load(format!("{}", i * 3));
        gui.end_update();
    }

    let duration = start.elapsed();
    println!("batch updates took {:?}", duration);

    assert!(gui.state.frequency_valid);
    assert!(gui.state.z0_valid);
    assert!(gui.state.load_valid);
}

#[test]
fn test_validation_performance() {
    let mut gui = MicrowaveGUI::default();
    let start = Instant::now();

    for i in 0..10000 {
        gui.set_frequency(format!("{}.{}e9", i % 10, i % 5));
        assert!(gui.state.frequency_valid);
    }

    let duration = start.elapsed();
    println!("validation took {:?}", duration);
}

#[test]
fn test_theme_switching_performance() {
    let mut gui = MicrowaveGUI::default();
    let start = Instant::now();

    for _ in 0..10000 {
        gui.set_theme("dark");
        gui.set_theme("light");
    }

    let duration = start.elapsed();
    println!("theme switching took {:?}", duration);
}

#[test]
fn test_concurrent_operations_performance() {
    let mut gui = MicrowaveGUI::default();
    let start = Instant::now();

    for i in 0..1000 {
        gui.begin_update();
        gui.set_frequency(format!("{}", i));
        gui.set_z0(format!("{}", i));
        gui.set_load(format!("{}", i));
        gui.set_theme(if i % 2 == 0 { "light" } else { "dark" });
        gui.set_matching_method(if i % 5 == 0 {
            "L"
        } else if i % 5 == 1 {
            "Pi"
        } else {
            "T"
        });
        gui.end_update();
    }

    let duration = start.elapsed();
    println!("mixed operations took {:?}", duration);
}

#[test]
fn test_memory_usage() {
    let mut gui = MicrowaveGUI::default();

    let mut data = Vec::new();
    for i in 0..10000 {
        data.push(format!("test_data_{}", i));
    }

    let start = Instant::now();

    for value in data {
        gui.set_result(value);
        gui.clear_result();
    }

    let duration = start.elapsed();
    println!("result churn took {:?}", duration);
}

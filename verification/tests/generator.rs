use ether_tester::params::Params;
use ether_tester::test_case::TestCase;

fn sample_params(bytes: usize) -> Params {
    Params {
        bytes,
        dest_ip: 0xC0A80001,
        dest_port: 4660,
        dest_mac: 0x0011_2233_4455,
        no_socket: false,
        reps: 1,
        serial_port: String::from("ttyUSB0"),
        serial_baud: 115200,
        show_all: false,
        src_ip: 0x0A000001,
        src_port: 80,
        src_mac: 0xAABB_CCDD_EEFF,
    }
}

#[test]
fn generate_is_deterministic() {
    let p = sample_params(64);
    let case = TestCase { params: &p, seed: 17, gen: 43 };
    assert_eq!(case.expected(), case.expected());
}

#[test]
fn generate_steps_by_the_step() {
    let p = sample_params(4);
    let case = TestCase { params: &p, seed: 10, gen: 5 };
    assert_eq!(case.expected(), vec![10, 15, 20, 25]);
}

#[test]
fn generate_wraps_at_eight_bits() {
    let p = sample_params(2);
    let case = TestCase { params: &p, seed: 250, gen: 10 };
    assert_eq!(case.expected(), vec![250, 4]);
}

#[test]
fn generate_zero_length_is_empty() {
    let p = sample_params(0);
    let case = TestCase { params: &p, seed: 250, gen: 10 };
    assert_eq!(case.expected(), Vec::<u8>::new());
}

#[test]
fn generate_zero_step_repeats_seed() {
    let p = sample_params(3);
    let case = TestCase { params: &p, seed: 7, gen: 0 };
    assert_eq!(case.expected(), vec![7, 7, 7]);
}

#[test]
fn new_draws_a_case_for_the_given_params() {
    let p = sample_params(5);
    let case = TestCase::new(&p);
    let expected = case.expected();
    assert_eq!(expected.len(), 5);
    assert_eq!(expected[0], case.seed);
    assert_eq!(expected[1], case.seed.wrapping_add(case.gen));
}

use ether_tester::params::{format_ip, format_mac, ip_from_octets, mac_from_bytes, Params};
use ether_tester::test_case::{decode_packet, TestCase, PACKET_LEN};

fn sample_params() -> Params {
    Params {
        bytes: 8,
        dest_ip: 0xC0A8_0001,
        dest_port: 0x1234,
        dest_mac: 0x0011_2233_4455,
        no_socket: false,
        reps: 1,
        serial_port: String::from("ttyUSB0"),
        serial_baud: 115200,
        show_all: false,
        src_ip: 0x0A00_0001,
        src_port: 0x0050,
        src_mac: 0xAABB_CCDD_EEFF,
    }
}

#[test]
fn encoding_is_always_26_bytes() {
    let p = sample_params();
    for (seed, gen) in [(0u8, 0u8), (255, 255), (10, 5)] {
        let case = TestCase { params: &p, seed, gen };
        assert_eq!(case.to_bytes().len(), PACKET_LEN);
    }
}

#[test]
fn encoding_lays_fields_out_big_endian() {
    let p = sample_params();
    let case = TestCase { params: &p, seed: 0xAB, gen: 0xCD };
    let bytes = case.to_bytes();
    assert_eq!(
        bytes,
        vec![
            0x0A, 0x00, 0x00, 0x01, // source IP
            0x00, 0x50, // source port
            0xAA, 0xBB, 0xCC, 0xDD, 0xEE, 0xFF, // source MAC
            0xC0, 0xA8, 0x00, 0x01, // destination IP
            0x12, 0x34, // destination port
            0x00, 0x11, 0x22, 0x33, 0x44, 0x55, // destination MAC
            0xAB, // seed
            0xCD, // step
        ]
    );
}

#[test]
fn encoding_discards_mac_bytes_above_48_bits() {
    let mut p = sample_params();
    p.src_mac = 0xFFFF_AABB_CCDD_EEFF;
    let case = TestCase { params: &p, seed: 1, gen: 2 };
    let bytes = case.to_bytes();
    assert_eq!(&bytes[6..12], &[0xAA, 0xBB, 0xCC, 0xDD, 0xEE, 0xFF]);
}

#[test]
fn decode_then_encode_reproduces_the_buffer() {
    let buffer: Vec<u8> = vec![
        192, 168, 1, 42, // source IP
        0x1F, 0x90, // source port
        0xDE, 0xAD, 0xBE, 0xEF, 0x00, 0x01, // source MAC
        10, 0, 0, 7, // destination IP
        0x00, 0x50, // destination port
        0x02, 0x42, 0xAC, 0x11, 0x00, 0x02, // destination MAC
        77, // seed
        3,  // step
    ];
    let fields = decode_packet(&buffer);
    assert_eq!(fields.src_ip, 0xC0A8012A);
    assert_eq!(fields.src_port, 8080);
    assert_eq!(fields.src_mac, 0xDEAD_BEEF_0001);
    assert_eq!(fields.dest_ip, 0x0A000007);
    assert_eq!(fields.dest_port, 80);
    assert_eq!(fields.dest_mac, 0x0242_AC11_0002);
    assert_eq!(fields.seed, 77);
    assert_eq!(fields.gen, 3);

    let p = Params {
        bytes: 0,
        dest_ip: fields.dest_ip,
        dest_port: fields.dest_port,
        dest_mac: fields.dest_mac,
        no_socket: false,
        reps: 0,
        serial_port: String::new(),
        serial_baud: 9600,
        show_all: false,
        src_ip: fields.src_ip,
        src_port: fields.src_port,
        src_mac: fields.src_mac,
    };
    let case = TestCase { params: &p, seed: fields.seed, gen: fields.gen };
    assert_eq!(case.to_bytes(), buffer);
}

#[test]
fn address_assembly_matches_the_text_forms() {
    let ip = ip_from_octets(192, 168, 1, 42);
    assert_eq!(ip, 0xC0A8012A);
    assert_eq!(format_ip(&ip), "192.168.1.42");

    let mac = mac_from_bytes(0xDE, 0xAD, 0xBE, 0xEF, 0x00, 0x01);
    assert_eq!(mac, 0xDEAD_BEEF_0001);
    assert_eq!(format_mac(&mac), "DE:AD:BE:EF:00:01");
}

#[test]
fn params_render_their_addresses() {
    let p = sample_params();
    assert_eq!(p.src_ip_string(), "10.0.0.1");
    assert_eq!(p.dest_ip_string(), "192.168.0.1");
    assert_eq!(p.src_mac_string(), "AA:BB:CC:DD:EE:FF");
    assert_eq!(p.dest_mac_string(), "00:11:22:33:44:55");
}

use docker_stats::{
    calc_cpu, calc_cumulative_disk, calc_cumulative_net, calc_disk, calc_mem, calc_net,
    handle_stat, header, record_line, BlkioEntry, BlkioOp, CpuShare, Delta, Interface,
    RawSample, BYTES_PER_MIB,
};

fn sample() -> RawSample {
    RawSample::new(0, 0, 1, 0, 0)
}

fn iface(name: &str, rx: u64, tx: u64) -> Interface {
    Interface { name: name.to_string(), rx_bytes: rx, tx_bytes: tx }
}

fn entry(op: BlkioOp, value: u64) -> BlkioEntry {
    BlkioEntry { op, value }
}

fn plus(magnitude: u128) -> Delta {
    Delta { negative: false, magnitude }
}

fn minus(magnitude: u128) -> Delta {
    Delta { negative: true, magnitude }
}

fn as_float(d: Delta) -> f64 {
    if d.negative {
        -(d.magnitude as f64)
    } else {
        d.magnitude as f64
    }
}

fn percent(share: CpuShare) -> f64 {
    (as_float(share.cpu_delta) / as_float(share.sys_delta)) * share.cpu_count as f64 * 100.0
}

#[test]
fn cpu_one_full_core_of_two() {
    let mut prev = sample();
    prev.cpu_total_usage = 1000;
    prev.cpu_system_usage = 100000;
    prev.cpu_count = 2;
    let mut cur = sample();
    cur.cpu_total_usage = 1500;
    cur.cpu_system_usage = 100500;
    cur.cpu_count = 2;
    let share = calc_cpu(&cur, &prev);
    assert_eq!(share, CpuShare { cpu_delta: plus(500), sys_delta: plus(500), cpu_count: 2 });
    assert_eq!(percent(share), 200.0);
}

#[test]
fn cpu_uses_the_current_cpu_count() {
    let mut prev = sample();
    prev.cpu_count = 8;
    let mut cur = sample();
    cur.cpu_total_usage = 250;
    cur.cpu_system_usage = 1000;
    cur.cpu_count = 4;
    let share = calc_cpu(&cur, &prev);
    assert_eq!(share.cpu_count, 4);
    assert_eq!(percent(share), 100.0);
}

#[test]
fn cpu_same_tick_is_not_finite() {
    let mut prev = sample();
    prev.cpu_total_usage = 1000;
    prev.cpu_system_usage = 5000;
    let mut cur = sample();
    cur.cpu_total_usage = 1200;
    cur.cpu_system_usage = 5000;
    let share = calc_cpu(&cur, &prev);
    assert!(share.sys_delta.is_zero());
    assert_eq!(share.cpu_delta, plus(200));
    assert!(!percent(share).is_finite());
}

#[test]
fn cpu_counter_reset_is_negative() {
    let mut prev = sample();
    prev.cpu_total_usage = u64::MAX;
    prev.cpu_system_usage = 10;
    let mut cur = sample();
    cur.cpu_total_usage = 0;
    cur.cpu_system_usage = 20;
    let share = calc_cpu(&cur, &prev);
    assert_eq!(share.cpu_delta, minus(u64::MAX as u128));
    assert!(share.cpu_delta.is_negative());
    assert_eq!(share.sys_delta, plus(10));
    assert!(percent(share) < 0.0);
}

#[test]
fn mem_two_mib_less_one_mib_of_cache() {
    let mut cur = sample();
    cur.mem_usage = 2097152;
    cur.mem_inactive_file = 1048576;
    let bytes = calc_mem(&cur);
    assert_eq!(bytes, 1048576);
    assert_eq!(BYTES_PER_MIB, 1048576);
    assert_eq!(bytes as f64 / BYTES_PER_MIB as f64, 1.0);
}

#[test]
fn mem_cache_equal_to_usage_leaves_usage() {
    let mut cur = sample();
    cur.mem_usage = 4096;
    cur.mem_inactive_file = 4096;
    assert_eq!(calc_mem(&cur), 4096);
}

#[test]
fn mem_cache_above_usage_leaves_usage() {
    let mut cur = sample();
    cur.mem_usage = 4096;
    cur.mem_inactive_file = 9000;
    assert_eq!(calc_mem(&cur), 4096);
}

#[test]
fn mem_all_zero() {
    assert_eq!(calc_mem(&sample()), 0);
}

#[test]
fn mem_sub_mib_variation_shows() {
    let mut cur = sample();
    cur.mem_usage = 1572864;
    cur.mem_inactive_file = 0;
    assert_eq!(calc_mem(&cur) as f64 / BYTES_PER_MIB as f64, 1.5);
}

#[test]
fn net_new_interface_counts_in_full() {
    let mut prev = sample();
    prev.networks = vec![iface("eth0", 100, 50)];
    let mut cur = sample();
    cur.networks = vec![iface("eth0", 300, 120), iface("eth1", 10, 5)];
    assert_eq!(calc_cumulative_net(&prev), (100, 50));
    assert_eq!(calc_cumulative_net(&cur), (310, 125));
    assert_eq!(calc_net(&cur, &prev), (plus(210), plus(75)));
}

#[test]
fn net_vanished_interface_counts_against() {
    let mut prev = sample();
    prev.networks = vec![iface("eth0", 100, 50), iface("eth1", 40, 30)];
    let mut cur = sample();
    cur.networks = vec![iface("eth0", 120, 60)];
    assert_eq!(calc_net(&cur, &prev), (minus(20), minus(20)));
}

#[test]
fn net_no_interfaces() {
    assert_eq!(calc_cumulative_net(&sample()), (0, 0));
    assert_eq!(calc_net(&sample(), &sample()), (plus(0), plus(0)));
}

#[test]
fn net_order_of_interfaces_is_irrelevant() {
    let mut a = sample();
    a.networks = vec![iface("eth0", 1, 2), iface("eth1", 30, 40), iface("lo", 500, 600)];
    let mut b = sample();
    b.networks = vec![iface("lo", 500, 600), iface("eth0", 1, 2), iface("eth1", 30, 40)];
    assert_eq!(calc_cumulative_net(&a), (531, 642));
    assert_eq!(calc_cumulative_net(&a), calc_cumulative_net(&b));
}

#[test]
fn net_totals_beyond_64_bits() {
    let mut cur = sample();
    cur.networks = vec![iface("eth0", u64::MAX, u64::MAX), iface("eth1", u64::MAX, 1)];
    let max = u64::MAX as u128;
    assert_eq!(calc_cumulative_net(&cur), (2 * max, max + 1));
    assert_eq!(calc_net(&sample(), &cur), (minus(2 * max), minus(max + 1)));
}

#[test]
fn disk_entries_of_one_operation_add_up() {
    let mut prev = sample();
    prev.blkio_entries = vec![entry(BlkioOp::Read, 200), entry(BlkioOp::Write, 100)];
    let mut cur = sample();
    cur.blkio_entries =
        vec![entry(BlkioOp::Read, 250), entry(BlkioOp::Read, 50), entry(BlkioOp::Write, 150)];
    assert_eq!(calc_cumulative_disk(&prev), (200, 100));
    assert_eq!(calc_cumulative_disk(&cur), (300, 150));
    assert_eq!(calc_disk(&cur, &prev), (plus(100), plus(50)));
}

#[test]
fn disk_other_operations_are_passed_over() {
    let mut cur = sample();
    cur.blkio_entries = vec![
        entry(BlkioOp::Other, 1000),
        entry(BlkioOp::Read, 7),
        entry(BlkioOp::Other, 2000),
        entry(BlkioOp::Write, 9),
    ];
    assert_eq!(calc_cumulative_disk(&cur), (7, 9));
}

#[test]
fn disk_order_of_entries_is_irrelevant() {
    let mut a = sample();
    a.blkio_entries = vec![
        entry(BlkioOp::Read, 250),
        entry(BlkioOp::Write, 150),
        entry(BlkioOp::Read, 50),
        entry(BlkioOp::Other, 3),
    ];
    let mut b = sample();
    b.blkio_entries = vec![
        entry(BlkioOp::Other, 3),
        entry(BlkioOp::Read, 50),
        entry(BlkioOp::Read, 250),
        entry(BlkioOp::Write, 150),
    ];
    let mut prev = sample();
    prev.blkio_entries = vec![entry(BlkioOp::Write, 100), entry(BlkioOp::Read, 200)];
    assert_eq!(calc_cumulative_disk(&a), calc_cumulative_disk(&b));
    assert_eq!(calc_disk(&a, &prev), (plus(100), plus(50)));
    assert_eq!(calc_disk(&b, &prev), (plus(100), plus(50)));
    assert_eq!(calc_disk(&prev, &a), calc_disk(&prev, &b));
}

#[test]
fn disk_shrinking_total_is_negative() {
    let mut prev = sample();
    prev.blkio_entries = vec![entry(BlkioOp::Read, 500), entry(BlkioOp::Write, 10)];
    let mut cur = sample();
    cur.blkio_entries = vec![entry(BlkioOp::Read, 100), entry(BlkioOp::Write, 10)];
    assert_eq!(calc_disk(&cur, &prev), (minus(400), plus(0)));
}

#[test]
fn disk_totals_beyond_64_bits() {
    let mut cur = sample();
    cur.blkio_entries = vec![entry(BlkioOp::Read, u64::MAX), entry(BlkioOp::Read, u64::MAX)];
    assert_eq!(calc_cumulative_disk(&cur), (2 * (u64::MAX as u128), 0));
}

#[test]
fn identical_samples_give_zero_everywhere() {
    let mut s = sample();
    s.cpu_total_usage = 123456;
    s.cpu_system_usage = 9999999;
    s.cpu_count = 4;
    s.mem_usage = 5000;
    s.mem_inactive_file = 1000;
    s.networks = vec![iface("eth0", 300, 120), iface("eth1", 10, 5)];
    s.blkio_entries = vec![entry(BlkioOp::Read, 250), entry(BlkioOp::Write, 150)];
    let m = handle_stat(&s, &s.clone());
    assert!(m.rx_bytes.is_zero());
    assert!(m.tx_bytes.is_zero());
    assert!(m.read_bytes.is_zero());
    assert!(m.write_bytes.is_zero());
    assert_eq!(m.rx_bytes, plus(0));
    assert!(m.cpu.cpu_delta.is_zero());
    assert!(m.cpu.sys_delta.is_zero());
    assert!(percent(m.cpu).is_nan());
    assert_eq!(m.mem_bytes, 4000);
}

#[test]
fn handle_stat_gathers_all_figures() {
    let mut prev = sample();
    prev.cpu_total_usage = 1000;
    prev.cpu_system_usage = 100000;
    prev.cpu_count = 2;
    prev.networks = vec![iface("eth0", 100, 50)];
    prev.blkio_entries = vec![entry(BlkioOp::Read, 200), entry(BlkioOp::Write, 100)];
    let mut cur = sample();
    cur.cpu_total_usage = 1500;
    cur.cpu_system_usage = 100500;
    cur.cpu_count = 2;
    cur.mem_usage = 2097152;
    cur.mem_inactive_file = 1048576;
    cur.networks = vec![iface("eth0", 300, 120), iface("eth1", 10, 5)];
    cur.blkio_entries =
        vec![entry(BlkioOp::Read, 250), entry(BlkioOp::Read, 50), entry(BlkioOp::Write, 150)];
    let m = handle_stat(&cur, &prev);
    assert_eq!(m.cpu, calc_cpu(&cur, &prev));
    assert_eq!(percent(m.cpu), 200.0);
    assert_eq!(m.mem_bytes, 1048576);
    assert_eq!(m.rx_bytes, plus(210));
    assert_eq!(m.tx_bytes, plus(75));
    assert_eq!(m.read_bytes, plus(100));
    assert_eq!(m.write_bytes, plus(50));
}

#[test]
fn header_names_the_columns_in_order() {
    assert_eq!(header(), "cpu,mem,rx,tx,read,write");
}

#[test]
fn tags_are_matched_exactly() {
    assert_eq!(BlkioOp::from_tag("Read"), BlkioOp::Read);
    assert_eq!(BlkioOp::from_tag("Write"), BlkioOp::Write);
    assert_eq!(BlkioOp::from_tag("read"), BlkioOp::Other);
    assert_eq!(BlkioOp::from_tag("Sync"), BlkioOp::Other);
    assert_eq!(BlkioOp::from_tag("Total"), BlkioOp::Other);
    assert_eq!(BlkioOp::from_tag(""), BlkioOp::Other);
    assert_eq!(BlkioEntry::from_tag("Write", 9), entry(BlkioOp::Write, 9));
}

#[test]
fn delta_between_readings() {
    assert_eq!(Delta::between(7, 5), plus(2));
    assert_eq!(Delta::between(5, 7), minus(2));
    assert_eq!(Delta::between(5, 5), plus(0));
    assert_eq!(Delta::between(0, u128::MAX), minus(u128::MAX));
    assert_eq!(Delta::between(u128::MAX, 0), plus(u128::MAX));
    assert!(Delta::between(5, 5).is_zero());
    assert!(!Delta::between(5, 5).is_negative());
    assert!(Delta::between(5, 7).is_negative());
    assert!(!Delta::between(7, 5).is_negative());
    assert!(!Delta::between(7, 5).is_zero());
}

#[test]
fn new_sample_holds_its_figures_and_no_entries() {
    let s = RawSample::new(11, 22, 3, 44, 5);
    assert_eq!(
        s,
        RawSample {
            cpu_total_usage: 11,
            cpu_system_usage: 22,
            cpu_count: 3,
            mem_usage: 44,
            mem_inactive_file: 5,
            networks: Vec::new(),
            blkio_entries: Vec::new(),
        }
    );
}

#[test]
fn set_interface_appends_new_names() {
    let mut s = sample();
    s.set_interface(iface("eth0", 300, 120));
    s.set_interface(iface("eth1", 10, 5));
    assert_eq!(s.networks, vec![iface("eth0", 300, 120), iface("eth1", 10, 5)]);
    assert_eq!(calc_cumulative_net(&s), (310, 125));
}

#[test]
fn set_interface_replaces_a_known_name_in_place() {
    let mut s = RawSample::new(1, 2, 3, 4, 5);
    s.blkio_entries = vec![entry(BlkioOp::Read, 9)];
    s.set_interface(iface("eth0", 300, 120));
    s.set_interface(iface("eth1", 10, 5));
    s.set_interface(iface("eth0", 301, 121));
    assert_eq!(s.networks, vec![iface("eth0", 301, 121), iface("eth1", 10, 5)]);
    assert_eq!(calc_cumulative_net(&s), (311, 126));
    assert_eq!(s.cpu_total_usage, 1);
    assert_eq!(s.cpu_system_usage, 2);
    assert_eq!(s.cpu_count, 3);
    assert_eq!(s.mem_usage, 4);
    assert_eq!(s.mem_inactive_file, 5);
    assert_eq!(s.blkio_entries, vec![entry(BlkioOp::Read, 9)]);
}

#[test]
fn set_interface_replaces_only_the_first_of_a_name() {
    let mut s = sample();
    s.networks = vec![iface("lo", 1, 1), iface("eth0", 2, 2), iface("eth0", 3, 3)];
    s.set_interface(iface("eth0", 7, 8));
    assert_eq!(s.networks, vec![iface("lo", 1, 1), iface("eth0", 7, 8), iface("eth0", 3, 3)]);
}

#[test]
fn record_line_has_the_fields_in_order() {
    let mut prev = sample();
    prev.networks = vec![iface("eth0", 100, 50)];
    prev.blkio_entries = vec![entry(BlkioOp::Read, 200), entry(BlkioOp::Write, 100)];
    let mut cur = sample();
    cur.networks = vec![iface("eth0", 300, 120), iface("eth1", 10, 5)];
    cur.blkio_entries =
        vec![entry(BlkioOp::Read, 250), entry(BlkioOp::Read, 50), entry(BlkioOp::Write, 150)];
    let m = handle_stat(&cur, &prev);
    assert_eq!(record_line("200", "1", &m), "200,1,210,75,100,50");
    assert_eq!(record_line("0.25", "1.5", &m), "0.25,1.5,210,75,100,50");
    assert_eq!(record_line("NaN", "", &m), "NaN,,210,75,100,50");
}

#[test]
fn record_line_shows_zero_and_negative_differences() {
    let mut prev = sample();
    prev.networks = vec![iface("eth0", 1000, 50)];
    prev.blkio_entries = vec![entry(BlkioOp::Read, 7), entry(BlkioOp::Write, 1234567890)];
    let mut cur = sample();
    cur.networks = vec![iface("eth0", 10, 50)];
    cur.blkio_entries = vec![entry(BlkioOp::Read, 7), entry(BlkioOp::Write, 0)];
    let m = handle_stat(&cur, &prev);
    assert_eq!(record_line("inf", "0", &m), "inf,0,-990,0,0,-1234567890");
}

#[test]
fn record_line_renders_every_digit_and_wide_totals() {
    let mut cur = sample();
    cur.networks = vec![iface("eth0", 1023456789, 9876543210)];
    cur.blkio_entries = vec![entry(BlkioOp::Read, u64::MAX), entry(BlkioOp::Read, u64::MAX)];
    let m = handle_stat(&cur, &sample());
    assert_eq!(
        record_line("1", "2", &m),
        "1,2,1023456789,9876543210,36893488147419103230,0"
    );
}

#[test]
fn record_line_counts_a_negative_zero_as_zero() {
    let mut m = handle_stat(&sample(), &sample());
    m.rx_bytes = Delta { negative: true, magnitude: 0 };
    assert_eq!(record_line("a", "b", &m), "a,b,0,0,0,0");
}

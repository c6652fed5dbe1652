use rkik::csv::{escape_csv, rows, to_csv, ProbeRow, Thousandths, HEADER};

fn ms(x: f64) -> Thousandths {
    Thousandths { negative: x.is_sign_negative(), magnitude: (x.abs() * 1000.0).round_ties_even() as u64 }
}

fn sample_probe(name: &str, stratum: u8, offset_ms: f64, rtt_ms: f64, timestamp: i64) -> ProbeRow {
    ProbeRow {
        target: name.to_string(),
        stratum,
        offset_ms: ms(offset_ms),
        rtt_ms: ms(rtt_ms),
        timestamp,
    }
}

#[test]
fn single_target_produces_header_and_one_row() {
    let p = sample_probe("time.google.com", 1, 1.234, 15.678, 1680000000);
    let csv = to_csv(&[p]).unwrap();
    let lines: Vec<&str> = csv.trim_end().split('\n').collect();
    assert_eq!(lines.len(), 2);
    assert_eq!(lines[0], "target,stratum,offset_ms,delay_ms,timestamp");
    assert_eq!(lines[1], "time.google.com,1,1.234,15.678,1680000000");
}

#[test]
fn multiple_targets_produces_header_and_multiple_rows() {
    let p1 = sample_probe("time.google.com", 1, 1.234, 15.678, 1680000000);
    let p2 = sample_probe("pool.ntp.org", 2, -2.500, 20.000, 1680000001);
    let csv = to_csv(&[p1, p2]).unwrap();
    let lines: Vec<&str> = csv.trim_end().split('\n').collect();
    assert_eq!(lines.len(), 3);
    assert_eq!(lines[0], "target,stratum,offset_ms,delay_ms,timestamp");
    assert_eq!(lines[1], "time.google.com,1,1.234,15.678,1680000000");
    assert_eq!(lines[2], "pool.ntp.org,2,-2.500,20.000,1680000001");
}

#[test]
fn fields_with_special_characters_are_escaped() {
    let p = sample_probe("server,with\"quotes\nand,commas", 3, 0.0, 0.0, 0);
    let csv = to_csv(&[p]).unwrap();
    assert_eq!(
        csv,
        "target,stratum,offset_ms,delay_ms,timestamp\n\"server,with\"\"quotes\nand,commas\",3,0.000,0.000,0\n"
    );
}

#[test]
fn escape_leaves_plain_fields_alone() {
    assert_eq!(escape_csv("pool.ntp.org"), "pool.ntp.org");
    assert_eq!(escape_csv(""), "");
}

#[test]
fn escape_quotes_each_special_character() {
    assert_eq!(escape_csv("a,b"), "\"a,b\"");
    assert_eq!(escape_csv("a\"b"), "\"a\"\"b\"");
    assert_eq!(escape_csv("a\nb"), "\"a\nb\"");
    assert_eq!(escape_csv("a\rb"), "\"a\rb\"");
    assert_eq!(escape_csv("\""), "\"\"\"\"");
}

fn unescape(t: &str) -> String {
    let chars: Vec<char> = t.chars().collect();
    if chars.len() >= 2 && chars[0] == '"' && chars[chars.len() - 1] == '"' {
        chars[1..chars.len() - 1].iter().collect::<String>().replace("\"\"", "\"")
    } else {
        t.to_string()
    }
}

#[test]
fn escaped_fields_read_back_unchanged() {
    for s in ["plain", "with,comma", "quote\"inside", "\"\"", "line\r\nbreak", "", "\"start"] {
        assert_eq!(unescape(&escape_csv(s)), s);
    }
}

#[test]
fn rows_of_batches_concatenate() {
    let a = sample_probe("a", 1, 0.5, 1.0, 10);
    let b = sample_probe("b", 2, -0.001, 2.0, -5);
    let both = rows(&[a.clone(), b.clone()]).unwrap();
    let first = rows(&[a]).unwrap();
    let second = rows(&[b]).unwrap();
    assert_eq!(both, format!("{}{}", first, second));
    assert_eq!(both, "a,1,0.500,1.000,10\nb,2,-0.001,2.000,-5\n");
}

#[test]
fn no_probes_give_the_header_only() {
    assert_eq!(to_csv(&[]).unwrap(), format!("{}\n", HEADER));
    assert_eq!(rows(&[]).unwrap(), "");
}

#[test]
fn fixed_point_rendering_extremes() {
    let big = Thousandths { negative: true, magnitude: u64::MAX };
    let p = ProbeRow { target: "x".to_string(), stratum: 255, offset_ms: big, rtt_ms: ms(0.007), timestamp: i64::MIN };
    assert_eq!(
        rows(&[p]).unwrap(),
        "x,255,-18446744073709551.615,0.007,-9223372036854775808\n"
    );
    let q = ProbeRow { target: "y".to_string(), stratum: 0, offset_ms: ms(-0.999), rtt_ms: ms(1.0), timestamp: i64::MAX };
    assert_eq!(rows(&[q]).unwrap(), "y,0,-0.999,1.000,9223372036854775807\n");
}

#[test]
fn small_negative_offsets_keep_their_sign() {
    let p = sample_probe("z", 1, -0.0004, 0.0, 0);
    assert_eq!(rows(&[p]).unwrap(), format!("z,1,{:.3},{:.3},0\n", -0.0004f64, 0.0f64));
    assert_eq!(rows(&[sample_probe("z", 1, -0.0004, 0.0, 0)]).unwrap(), "z,1,-0.000,0.000,0\n");
}

fn read_record(t: &str) -> Vec<String> {
    let chars: Vec<char> = t.chars().collect();
    let mut fields = Vec::new();
    let mut cur = String::new();
    let mut in_quotes = false;
    let mut i = 0;
    while i < chars.len() {
        let c = chars[i];
        if in_quotes {
            if c == '"' {
                if i + 1 < chars.len() && chars[i + 1] == '"' {
                    cur.push('"');
                    i += 1;
                } else {
                    in_quotes = false;
                }
            } else {
                cur.push(c);
            }
        } else if c == ',' {
            fields.push(std::mem::take(&mut cur));
        } else if c == '"' && cur.is_empty() {
            in_quotes = true;
        } else {
            cur.push(c);
        }
        i += 1;
    }
    fields.push(cur);
    fields
}

#[test]
fn rows_read_back_as_five_fields() {
    let name = "odd \"name\", with\r\nbreaks";
    let p = sample_probe(name, 2, -12.345, 0.25, 1680000000);
    let line = rows(&[p]).unwrap();
    let record = line.strip_suffix('\n').unwrap();
    assert_eq!(read_record(record), vec![name, "2", "-12.345", "0.250", "1680000000"]);
}

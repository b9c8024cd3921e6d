use chrono::{DateTime, Utc};

/// The civil-date arithmetic the library states of chrono's minute
/// stamps, written out for checking against chrono itself.
fn civil_date(z: i64) -> (i64, i64, i64) {
    let shifted = z + 719468;
    let era = shifted.div_euclid(146097);
    let doe = shifted - era * 146097;
    let yoe = (doe - doe / 1460 + doe / 36524 - doe / 146096) / 365;
    let doy = doe - (365 * yoe + yoe / 4 - yoe / 100);
    let mp = (5 * doy + 2) / 153;
    let d = doy - (153 * mp + 2) / 5 + 1;
    let m = if mp < 10 { mp + 3 } else { mp - 9 };
    let y = yoe + era * 400 + if m <= 2 { 1 } else { 0 };
    (y, m, d)
}

fn minute_text(secs: i64) -> String {
    let (y, m, d) = civil_date(secs.div_euclid(86400));
    let rem = secs.rem_euclid(86400);
    format!("{y:04}-{m:02}-{d:02} {:02}:{:02} UTC", rem / 3600, (rem % 3600) / 60)
}

fn chrono_text(secs: i64) -> String {
    DateTime::<Utc>::from_timestamp(secs, 0)
        .expect("an instant")
        .format("%Y-%m-%d %H:%M UTC")
        .to_string()
}

#[test]
fn minute_stamps_follow_the_civil_calendar() {
    let mut secs: i64 = 1;
    while secs < 32_503_680_000 {
        assert_eq!(minute_text(secs), chrono_text(secs), "at {secs}");
        secs += 7_777_777;
    }
    for secs in [1, 59, 60, 86_399, 86_400, 951_782_400, 1_700_000_000, 4_107_542_399, 32_503_679_999] {
        assert_eq!(minute_text(secs), chrono_text(secs), "at {secs}");
    }
}

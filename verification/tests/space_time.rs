use pearls::space_time::{dones, pendings, sum_time_units, SpaceTime, TimeUnit, TypeOfWork};
use pearls::time::{Duration, SystemTime};

#[test]
fn it_works() {
    let mut st = SpaceTime::new();
    let id = String::from("project_0");
    st.add_shell(
        id.clone(),
        SystemTime { millis: 1_600_000_000_000 },
        SystemTime { millis: 2_524_611_661_000 },
    );
    st.add_time_unit(id.clone(), TypeOfWork::Dev, Duration::from_secs(60 * 60));
    st.add_time_unit(id.clone(), TypeOfWork::Dev, Duration::from_secs(60 * 60));
    st.consume_time_unit(&id);
    let empty = Vec::new();
    let mut o = st.remaining(&id);
    let r = o.get_or_insert(empty);
    let remaining_time = sum_time_units(&r);
    assert_eq!(Duration::from_secs(60 * 60), remaining_time);
}

#[test]
fn nothing_remains_for_a_shell_that_is_not_there() {
    let mut st = SpaceTime::new();
    st.add_time_unit(String::from("a"), TypeOfWork::Admin, Duration::from_secs(60));
    assert!(st.remaining(&String::from("a")).is_none());
    assert!(st.find_shell(&String::from("a")).is_none());
    st.consume_time_unit(&String::from("a"));
    st.add_shell(String::from("a"), SystemTime { millis: 0 }, SystemTime { millis: 1 });
    assert_eq!(st.remaining(&String::from("a")).map(|units| units.len()), Some(1));
    assert_eq!(st.get_shells().len(), 1);
    assert_eq!(st.find_shell(&String::from("a")).map(|s| s.end), Some(SystemTime { millis: 1 }));
}

#[test]
fn units_are_pending_until_they_are_consumed() {
    let mut units = vec![
        TimeUnit::new(String::from("a"), TypeOfWork::Dev, Duration::from_secs(10)),
        TimeUnit::new(String::from("b"), TypeOfWork::Admin, Duration::from_secs(20)),
    ];
    units[1].consume();
    assert_eq!(sum_time_units(&pendings(&units)), Duration::from_secs(10));
    assert_eq!(sum_time_units(&dones(&units)), Duration::from_secs(20));
    assert_eq!(sum_time_units(&units), Duration::from_secs(30));
}

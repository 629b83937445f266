use afpacket::filter::{build_filter_attach, FilterProgram, SockFilter, SOL_SOCKET, SO_ATTACH_FILTER};

#[test]
fn converted_program_matches_rules_in_order() {
    let prog: FilterProgram = vec![
        (0x28, 0, 0, 0x0000000c),
        (0x15, 0, 1, 0x00000800),
        (0x06, 0, 0, 0x00040000),
    ];
    let req = build_filter_attach(&prog);
    assert_eq!(req.level, SOL_SOCKET);
    assert_eq!(req.optname, SO_ATTACH_FILTER);
    assert_eq!(req.count, 3);
    assert_eq!(req.instructions.len(), 3);
    for (i, rule) in prog.iter().enumerate() {
        assert_eq!(req.instructions[i].code, rule.0);
        assert_eq!(req.instructions[i].jt, rule.1);
        assert_eq!(req.instructions[i].jf, rule.2);
        assert_eq!(req.instructions[i].k, rule.3);
    }
}

#[test]
fn empty_program_converts_to_empty_array() {
    let prog: FilterProgram = vec![];
    let req = build_filter_attach(&prog);
    assert_eq!(req.count, 0);
    assert!(req.instructions.is_empty());
}

#[test]
fn single_rule_fields_carry_over() {
    let rule = (0xffffu16, 0x12u8, 0x34u8, 0xdeadbeefu32);
    let conv = SockFilter::from(rule);
    assert_eq!(conv.code, 0xffff);
    assert_eq!(conv.jt, 0x12);
    assert_eq!(conv.jf, 0x34);
    assert_eq!(conv.k, 0xdeadbeef);
}

#[test]
fn converted_filters_compare_structurally() {
    let a = SockFilter::from((6, 0, 0, 64));
    let b = SockFilter { code: 6, jt: 0, jf: 0, k: 64 };
    assert_eq!(a, b);
}

use rawncc::{
    check_ra_nc_var, name_verdict, CaseShape, CategoryRule, NamingPolicy, Sigil, SrcLocation,
    VarContext, VarContextType,
};

fn location() -> SrcLocation {
    SrcLocation {
        file: "foobar.cpp".to_owned(),
        line_no: 666,
        column: 42,
    }
}

fn var(name: &str, var_type: VarContextType, is_member: bool, is_const: bool, is_static: bool) -> VarContext {
    VarContext {
        name: name.to_owned(),
        var_type,
        is_member,
        is_const,
        is_static,
        src_location: location(),
    }
}

#[test]
fn test_fun_ra_nc_var_simple() {
    fn check_var(name: &str, var_type: VarContextType) -> Result<(), String> {
        check_ra_nc_var(&VarContext {
            name: name.to_owned(),
            var_type,
            is_member: false,
            is_const: false,
            is_static: false,
            src_location: SrcLocation {
                file: "foobar.cpp".to_owned(),
                line_no: 666,
                column: 42,
            },
        })
    }

    assert!(check_var("clock", VarContextType::Value).is_ok());
    assert!(check_var("clockType", VarContextType::Value).is_ok());
    assert!(check_var("clock007Type", VarContextType::Value).is_ok());
    assert!(check_var("clockTypeMe", VarContextType::Value).is_ok());
    assert!(check_var("pClockTypeMe", VarContextType::Value).is_ok());
    assert!(check_var("rClockTypeMe", VarContextType::Value).is_ok());
    assert!(check_var("ClockTypeMe", VarContextType::Value).is_err());
    assert!(check_var("clock_type_me", VarContextType::Value).is_err());
    assert!(check_var("666Clock", VarContextType::Value).is_err());

    assert!(check_var("pClock", VarContextType::Ptr).is_ok());
    assert!(check_var("pClockWork", VarContextType::Ptr).is_ok());
    assert!(check_var("pClock666Work", VarContextType::Ptr).is_ok());
    assert!(check_var("clockWork", VarContextType::Ptr).is_err());
    assert!(check_var("ClockWork", VarContextType::Ptr).is_err());
    assert!(check_var("pClock_Work", VarContextType::Ptr).is_err());
    assert!(check_var("p_clock_work", VarContextType::Ptr).is_err());

    assert!(check_var("rClock", VarContextType::Ref).is_ok());
    assert!(check_var("rClockWork", VarContextType::Ref).is_ok());
    assert!(check_var("rClock666Work", VarContextType::Ref).is_ok());
    assert!(check_var("clockWork", VarContextType::Ref).is_err());
    assert!(check_var("ClockWork", VarContextType::Ref).is_err());
    assert!(check_var("rClock_Work", VarContextType::Ref).is_err());
    assert!(check_var("r_clock_work", VarContextType::Ref).is_err());
}

#[test]
fn test_fun_ra_nc_var_member() {
    fn check_var(name: &str, var_type: VarContextType) -> Result<(), String> {
        assert!(check_ra_nc_var(&VarContext {
            name: name.to_owned(),
            var_type: var_type.clone(),
            is_member: true,
            is_const: false,
            is_static: false,
            src_location: SrcLocation {
                file: "foobar.cpp".to_owned(),
                line_no: 666,
                column: 42,
            },
        })
        .is_err());

        check_ra_nc_var(&VarContext {
            name: String::from("m_") + name,
            var_type,
            is_member: true,
            is_const: false,
            is_static: false,
            src_location: SrcLocation {
                file: "foobar.cpp".to_owned(),
                line_no: 666,
                column: 42,
            },
        })
    }

    assert!(check_var("clock", VarContextType::Value).is_err());
    assert!(check_var("clockType", VarContextType::Value).is_err());
    assert!(check_var("clock007Type", VarContextType::Value).is_err());
    assert!(check_var("clockTypeMe", VarContextType::Value).is_err());
    assert!(check_var("pClockTypeMe", VarContextType::Value).is_err());
    assert!(check_var("rClockTypeMe", VarContextType::Value).is_err());
    assert!(check_var("ClockTypeMe", VarContextType::Value).is_ok());
    assert!(check_var("clock_type_me", VarContextType::Value).is_err());

    assert!(check_var("pClock", VarContextType::Ptr).is_ok());
    assert!(check_var("pClockWork", VarContextType::Ptr).is_ok());
    assert!(check_var("pClock666Work", VarContextType::Ptr).is_ok());
    assert!(check_var("clockWork", VarContextType::Ptr).is_err());
    assert!(check_var("ClockWork", VarContextType::Ptr).is_err());
    assert!(check_var("pClock_Work", VarContextType::Ptr).is_err());
    assert!(check_var("p_clock_work", VarContextType::Ptr).is_err());
    assert!(check_var("p_clock_work", VarContextType::Ptr).is_err());

    assert!(check_var("rClock", VarContextType::Ref).is_ok());
    assert!(check_var("rClockWork", VarContextType::Ref).is_ok());
    assert!(check_var("rClock666Work", VarContextType::Ref).is_ok());
    assert!(check_var("clockWork", VarContextType::Ref).is_err());
    assert!(check_var("ClockWork", VarContextType::Ref).is_err());
    assert!(check_var("rClock_Work", VarContextType::Ref).is_err());
    assert!(check_var("r_clock_work", VarContextType::Ref).is_err());
}

// The constant rule applies to variables that are both static and const.
#[test]
fn test_fun_ra_nc_var_const() {
    fn check_var(name: &str, var_type: VarContextType) -> Result<(), String> {
        assert!(check_ra_nc_var(&VarContext {
            name: name.to_owned(),
            var_type: var_type.clone(),
            is_member: false,
            is_const: true,
            is_static: true,
            src_location: SrcLocation {
                file: "foobar.cpp".to_owned(),
                line_no: 666,
                column: 42,
            },
        })
        .is_err());

        let mut n = String::from(name);
        n.make_ascii_uppercase();
        check_ra_nc_var(&VarContext {
            name: n,
            var_type,
            is_member: false,
            is_const: true,
            is_static: true,
            src_location: SrcLocation {
                file: "foobar.cpp".to_owned(),
                line_no: 666,
                column: 42,
            },
        })
    }

    assert!(check_var("clock", VarContextType::Value).is_ok());
    assert!(check_var("clockType", VarContextType::Value).is_ok());
    assert!(check_var("clock007Type", VarContextType::Value).is_ok());
    assert!(check_var("ClockTypeMe", VarContextType::Value).is_ok());
    assert!(check_var("clock_type_me", VarContextType::Value).is_ok());
    assert!(check_var("666_clock_type_me", VarContextType::Value).is_err());
}

#[test]
fn constants_need_upper_snake_case_in_every_role() {
    for var_type in [VarContextType::Value, VarContextType::Ptr, VarContextType::Ref, VarContextType::Array] {
        for is_member in [false, true] {
            assert!(check_ra_nc_var(&var("THE_INT", var_type, is_member, true, true)).is_ok());
            assert!(check_ra_nc_var(&var("UNNAMED_NAMESPACE", var_type, is_member, true, true)).is_ok());
            assert!(check_ra_nc_var(&var("theInt", var_type, is_member, true, true)).is_err());
        }
    }
}

#[test]
fn constant_blocks_start_with_a_letter_and_have_two_characters() {
    assert!(check_ra_nc_var(&var("A_BC", VarContextType::Value, false, true, true)).is_err());
    assert!(check_ra_nc_var(&var("AB_1C", VarContextType::Value, false, true, true)).is_err());
    assert!(check_ra_nc_var(&var("AB__CD", VarContextType::Value, false, true, true)).is_err());
    assert!(check_ra_nc_var(&var("AB_C1", VarContextType::Value, false, true, true)).is_ok());
}

#[test]
fn free_values_need_lower_camel_case() {
    assert!(check_ra_nc_var(&var("clockType", VarContextType::Value, false, false, false)).is_ok());
    assert!(check_ra_nc_var(&var("ClockType", VarContextType::Value, false, false, false)).is_err());
    assert!(check_ra_nc_var(&var("clock_type", VarContextType::Value, false, false, false)).is_err());
}

#[test]
fn const_but_not_static_follows_the_role_rules() {
    assert!(check_ra_nc_var(&var("clockType", VarContextType::Value, false, true, false)).is_ok());
    assert!(check_ra_nc_var(&var("CLOCK_TYPE", VarContextType::Value, false, true, false)).is_err());
    assert!(check_ra_nc_var(&var("clockType", VarContextType::Value, false, false, true)).is_ok());
}

#[test]
fn pointers_need_p_and_pascal_case() {
    assert!(check_ra_nc_var(&var("pClockWork", VarContextType::Ptr, false, false, false)).is_ok());
    assert!(check_ra_nc_var(&var("clockWork", VarContextType::Ptr, false, false, false)).is_err());
    assert!(check_ra_nc_var(&var("pClock_Work", VarContextType::Ptr, false, false, false)).is_err());
    assert!(check_ra_nc_var(&var("m_pClockWork", VarContextType::Ptr, true, false, false)).is_ok());
    assert!(check_ra_nc_var(&var("pClockWork", VarContextType::Ptr, true, false, false)).is_err());
}

#[test]
fn members_need_the_m_prefix() {
    assert!(check_ra_nc_var(&var("m_Int", VarContextType::Value, true, false, false)).is_ok());
    assert!(check_ra_nc_var(&var("Int", VarContextType::Value, true, false, false)).is_err());
    assert!(check_ra_nc_var(&var("m_pInt", VarContextType::Ptr, true, false, false)).is_ok());
    assert!(check_ra_nc_var(&var("m_rInt", VarContextType::Ref, true, false, false)).is_ok());
    assert!(check_ra_nc_var(&var("m_Values", VarContextType::Array, true, false, false)).is_ok());
}

#[test]
fn free_arrays_take_no_sigil_under_the_standard_table() {
    assert!(check_ra_nc_var(&var("values", VarContextType::Array, false, false, false)).is_ok());
    assert!(check_ra_nc_var(&var("rValues", VarContextType::Array, false, false, false)).is_ok());
    assert!(check_ra_nc_var(&var("Values", VarContextType::Array, false, false, false)).is_err());
}

#[test]
fn rejection_carries_the_pattern() {
    assert_eq!(
        Err("^p([A-Z][a-z0-9]+)+$".to_owned()),
        check_ra_nc_var(&var("clockWork", VarContextType::Ptr, false, false, false))
    );
    assert_eq!(
        Err("^m_r([A-Z][a-z0-9]+)+$".to_owned()),
        check_ra_nc_var(&var("rClock", VarContextType::Ref, true, false, false))
    );
    assert_eq!(
        Err("^[A-Z][A-Z0-9]+(_[A-Z][A-Z0-9]+)*$".to_owned()),
        check_ra_nc_var(&var("theInt", VarContextType::Value, true, true, true))
    );
    assert_eq!(
        Err("^[a-z][a-z0-9]*([A-Z][a-z0-9]+)*$".to_owned()),
        check_ra_nc_var(&var("Clock", VarContextType::Value, false, false, false))
    );
}

#[test]
fn standard_patterns_for_each_role() {
    let policy = NamingPolicy::standard();
    assert_eq!("^[a-z][a-z0-9]*([A-Z][a-z0-9]+)*$", policy.pattern(&var("x", VarContextType::Value, false, false, false)));
    assert_eq!("^m_([A-Z][a-z0-9]+)+$", policy.pattern(&var("x", VarContextType::Value, true, false, false)));
    assert_eq!("^p([A-Z][a-z0-9]+)+$", policy.pattern(&var("x", VarContextType::Ptr, false, false, false)));
    assert_eq!("^m_p([A-Z][a-z0-9]+)+$", policy.pattern(&var("x", VarContextType::Ptr, true, false, false)));
    assert_eq!("^r([A-Z][a-z0-9]+)+$", policy.pattern(&var("x", VarContextType::Ref, false, false, false)));
    assert_eq!("^[a-z][a-z0-9]*([A-Z][a-z0-9]+)*$", policy.pattern(&var("x", VarContextType::Array, false, false, false)));
    assert_eq!("^m_([A-Z][a-z0-9]+)+$", policy.pattern(&var("x", VarContextType::Array, true, false, false)));
    assert_eq!("^[A-Z][A-Z0-9]+(_[A-Z][A-Z0-9]+)*$", policy.pattern(&var("x", VarContextType::Ref, true, true, true)));
}

#[test]
fn a_custom_table_changes_the_open_choices() {
    let mut policy = NamingPolicy::standard();
    policy.array = CategoryRule {
        sigil: Sigil::Reference,
        free_shape: CaseShape::LowerCamel,
        member_shape: CaseShape::LowerCamel,
    };
    policy.value.member_shape = CaseShape::LowerCamel;
    assert_eq!("^r[a-z][a-z0-9]*([A-Z][a-z0-9]+)*$", policy.pattern(&var("x", VarContextType::Array, false, false, false)));
    assert!(policy.check(&var("rvalues", VarContextType::Array, false, false, false)).is_ok());
    assert!(policy.check(&var("values", VarContextType::Array, false, false, false)).is_err());
    assert!(policy.check(&var("m_clockType", VarContextType::Value, true, false, false)).is_ok());
    assert!(policy.check(&var("m_ClockType", VarContextType::Value, true, false, false)).is_err());
}

#[test]
fn verdict_follows_the_outcome() {
    assert_eq!(Ok(()), name_verdict("^a$".to_owned(), Some(true)));
    assert_eq!(Err("^a$".to_owned()), name_verdict("^a$".to_owned(), Some(false)));
    assert_eq!(Err("(".to_owned()), name_verdict("(".to_owned(), None));
}

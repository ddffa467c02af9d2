#[test]
fn control_metric_field_audit_is_declaration_scoped() {
    let unrelated_icon_size = r"
        pub struct IconSizeScale {
            pub icon_size: f32,
        }

        pub struct ControlMetrics {
            pub control_height: f32,
        }
    ";
    assert!(!control_metrics_declares_icon_size(unrelated_icon_size));

    let mutated_control_metrics = r"
        pub struct ControlMetrics {
            pub control_height: f32,
            pub icon_size : core::primitive::f32,
        }
    ";
    assert!(control_metrics_declares_icon_size(mutated_control_metrics));
}

fn control_metrics_declares_icon_size(source: &str) -> bool {
    control_metrics_body(source)
        .chars()
        .filter(|character| !character.is_whitespace())
        .collect::<String>()
        .contains("pubicon_size:")
}

fn control_metrics_body(source: &str) -> &str {
    let declaration = "pub struct ControlMetrics";
    let declaration_start = source
        .find(declaration)
        .expect("ControlMetrics declaration must exist");
    let opening_brace = source[declaration_start..]
        .find('{')
        .map(|offset| declaration_start + offset)
        .expect("ControlMetrics declaration must have a body");
    let body_start = opening_brace + 1;
    let mut depth = 1_usize;
    for (offset, character) in source[body_start..].char_indices() {
        match character {
            '{' => depth += 1,
            '}' => {
                depth -= 1;
                if depth == 0 {
                    return &source[body_start..body_start + offset];
                }
            }
            _ => {}
        }
    }
    panic!("ControlMetrics declaration body must close");
}

use cool_material::material::{
    uniform_update, BindingKind, UniformUpdate, UNIFORM_BINDING, UNIFORM_OFFSET,
};

#[test]
fn uniform_block_sits_after_texture_and_sampler() {
    assert_eq!(UNIFORM_BINDING, 2);
    assert_eq!(UNIFORM_OFFSET, 0);
}

#[test]
fn unprepared_material_is_skipped() {
    assert_eq!(uniform_update(None), UniformUpdate::Skip);
}

#[test]
fn prepared_material_is_written_at_its_uniform_block() {
    let bindings = vec![BindingKind::TextureView, BindingKind::Sampler, BindingKind::Buffer];
    assert_eq!(
        uniform_update(Some(&bindings)),
        UniformUpdate::Write { binding: 2, offset: 0 }
    );
}

#[test]
fn texture_view_at_the_uniform_position_is_skipped() {
    let bindings = vec![BindingKind::Buffer, BindingKind::Buffer, BindingKind::TextureView];
    assert_eq!(uniform_update(Some(&bindings)), UniformUpdate::Skip);
}

#[test]
fn sampler_at_the_uniform_position_is_skipped() {
    let bindings = vec![BindingKind::Buffer, BindingKind::TextureView, BindingKind::Sampler];
    assert_eq!(uniform_update(Some(&bindings)), UniformUpdate::Skip);
}

#[test]
fn only_the_uniform_position_decides() {
    let kinds = [BindingKind::Buffer, BindingKind::TextureView, BindingKind::Sampler];
    for first in kinds {
        for second in kinds {
            for extra in kinds {
                let bindings = vec![first, second, BindingKind::Buffer, extra];
                assert_eq!(
                    uniform_update(Some(&bindings)),
                    UniformUpdate::Write { binding: UNIFORM_BINDING, offset: UNIFORM_OFFSET }
                );
                let bindings = vec![first, second, BindingKind::Sampler, extra];
                assert_eq!(uniform_update(Some(&bindings)), UniformUpdate::Skip);
            }
        }
    }
}

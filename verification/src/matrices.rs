//! Matrix algebra: 2x2 and 3x3 helpers for cofactor expansion, and the
//! 4x4 transform matrices the renderer works with.

mod m_2d;
mod m_3d;
mod m_4d;
mod transformations;

pub use m_2d::{det2_of, Matrix2D};
pub use m_3d::{cof3_of, det3_entries, det3_of, minor3_of, skip_idx, Matrix3D};
pub use m_4d::{
    cof4_of, det4_of, inv4_entry, is_identity, lemma_identity_det, lemma_identity_inv_apply, lemma_identity_inv_entries, lemma_inverse_apply,
    lemma_inverse_entry_precision,
    lemma_inverse_transpose_apply,
    m4_apply, m4_inv_apply, m4_invt_apply, mat_feq, minor4_of, mul_entry_of, Matrix,
};
pub use transformations::{
    lemma_scaling_det, lemma_translation_det, rotation_x_entry, rotation_y_entry, rotation_z_entry, scaling_entry, shearing_entry,
    translation_entry, vt_forward, vt_left, vt_true_up,
};

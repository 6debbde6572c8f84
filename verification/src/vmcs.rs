//! The in-memory VMCS mirror: every field the hypervisor programs,
//! grouped by role, with the three-phase init / encode / commit protocol.
//!
//! `encode` assigns each field its Intel encoding exactly once; `commit`
//! flushes every value to the hardware region, applying fixed-bit masking
//! to the control fields, so that reading a committed field back yields
//! the mirrored value modulo that masking.

use vstd::prelude::*;

use crate::access::{Encoding, FakeField, Field, FixedField};
use crate::utils::RawValue;
use crate::enc::{
    ENTRY_CTRLS,
    ENTRY_CTRL_EXCP_ERR_CODE,
    ENTRY_CTRL_INSN_LEN,
    ENTRY_CTRL_INT_INFO,
    ENTRY_CTRL_MSR_LOAD_ADDR,
    ENTRY_CTRL_MSR_LOAD_COUNT,
    EXEC_CTRL_ADDR_IO_MAP_A,
    EXEC_CTRL_ADDR_IO_MAP_B,
    EXEC_CTRL_ADDR_MSR_MAP,
    EXEC_CTRL_APIC_PAGE_ADDR,
    EXEC_CTRL_CR0_GUEST_HOST_MASK,
    EXEC_CTRL_CR0_READ_SHADOW,
    EXEC_CTRL_CR3_TARGET_0,
    EXEC_CTRL_CR3_TARGET_1,
    EXEC_CTRL_CR3_TARGET_2,
    EXEC_CTRL_CR3_TARGET_3,
    EXEC_CTRL_CR3_TARGET_COUNT,
    EXEC_CTRL_CR4_GUEST_HOST_MASK,
    EXEC_CTRL_CR4_READ_SHADOW,
    EXEC_CTRL_ENCLS_MAP,
    EXEC_CTRL_EPTP,
    EXEC_CTRL_EPTP_IDX,
    EXEC_CTRL_EPTP_LIST,
    EXEC_CTRL_EXCP_BITMAP,
    EXEC_CTRL_PF_ERR_MASK,
    EXEC_CTRL_PF_ERR_MATCH,
    EXEC_CTRL_PINBASED,
    EXEC_CTRL_PLE_GAP,
    EXEC_CTRL_PLE_WIN,
    EXEC_CTRL_PML_ADDR,
    EXEC_CTRL_POSTED_INT,
    EXEC_CTRL_PROCBASED_1,
    EXEC_CTRL_PROCBASED_2,
    EXEC_CTRL_TPR_THRESHOLD,
    EXEC_CTRL_TSC_OFFSET,
    EXEC_CTRL_VAPIC_PAGE_ADDR,
    EXEC_CTRL_VMCS_PTR,
    EXEC_CTRL_VMREAD_MAP,
    EXEC_CTRL_VMWRITE_MAP,
    EXEC_CTRL_VMX_EXCP_ADDR,
    EXEC_CTRL_VM_FUNC,
    EXEC_CTRL_VPID,
    EXEC_CTRL_XSS_MAP,
    EXIT_CTRLS,
    EXIT_CTRL_MSR_LOAD_ADDR,
    EXIT_CTRL_MSR_LOAD_COUNT,
    EXIT_CTRL_MSR_STORE_ADDR,
    EXIT_CTRL_MSR_STORE_COUNT,
    EXIT_INFO_GUEST_LINEAR_ADDR,
    EXIT_INFO_GUEST_PHYSICAL_ADDR,
    EXIT_INFO_IDT_VECT_ERR,
    EXIT_INFO_IDT_VECT_INFO,
    EXIT_INFO_IO_RCX,
    EXIT_INFO_IO_RDI,
    EXIT_INFO_IO_RIP,
    EXIT_INFO_IO_RSI,
    EXIT_INFO_QUALIFICATION,
    EXIT_INFO_REASON,
    EXIT_INFO_VMEXIT_INSN_INFO,
    EXIT_INFO_VMEXIT_INSN_LEN,
    EXIT_INFO_VMEXIT_INT_ERR,
    EXIT_INFO_VMEXIT_INT_INFO,
    EXIT_INFO_VM_INSN_ERROR,
    GUEST_STATE_ACTIVITY_STATE,
    GUEST_STATE_CR0,
    GUEST_STATE_CR2,
    GUEST_STATE_CR3,
    GUEST_STATE_CR4,
    GUEST_STATE_CS_ACCESS_RIGHTS,
    GUEST_STATE_CS_BASE,
    GUEST_STATE_CS_LIMIT,
    GUEST_STATE_CS_SEL,
    GUEST_STATE_DR6,
    GUEST_STATE_DR7,
    GUEST_STATE_DS_ACCESS_RIGHTS,
    GUEST_STATE_DS_BASE,
    GUEST_STATE_DS_LIMIT,
    GUEST_STATE_DS_SEL,
    GUEST_STATE_ES_ACCESS_RIGHTS,
    GUEST_STATE_ES_BASE,
    GUEST_STATE_ES_LIMIT,
    GUEST_STATE_ES_SEL,
    GUEST_STATE_FS_ACCESS_RIGHTS,
    GUEST_STATE_FS_BASE,
    GUEST_STATE_FS_LIMIT,
    GUEST_STATE_FS_SEL,
    GUEST_STATE_GDTR_BASE,
    GUEST_STATE_GDTR_LIMIT,
    GUEST_STATE_GS_ACCESS_RIGHTS,
    GUEST_STATE_GS_BASE,
    GUEST_STATE_GS_LIMIT,
    GUEST_STATE_GS_SEL,
    GUEST_STATE_IA32_BNDCFG,
    GUEST_STATE_IA32_DBG_CTL,
    GUEST_STATE_IA32_EFER,
    GUEST_STATE_IA32_PAT,
    GUEST_STATE_IA32_PERF_GLOBAL,
    GUEST_STATE_IA32_SYSENTER_CS,
    GUEST_STATE_IA32_SYSENTER_EIP,
    GUEST_STATE_IA32_SYSENTER_ESP,
    GUEST_STATE_IDTR_BASE,
    GUEST_STATE_IDTR_LIMIT,
    GUEST_STATE_INTR,
    GUEST_STATE_INT_STATE,
    GUEST_STATE_LDTR_ACCESS_RIGHTS,
    GUEST_STATE_LDTR_BASE,
    GUEST_STATE_LDTR_LIMIT,
    GUEST_STATE_LDTR_SEL,
    GUEST_STATE_PDPTE0,
    GUEST_STATE_PDPTE1,
    GUEST_STATE_PDPTE2,
    GUEST_STATE_PDPTE3,
    GUEST_STATE_PENDING_DBG_EXCP,
    GUEST_STATE_PML_IDX,
    GUEST_STATE_PREEMPT_TIMER,
    GUEST_STATE_RFLAGS,
    GUEST_STATE_RIP,
    GUEST_STATE_RSP,
    GUEST_STATE_SMBASE,
    GUEST_STATE_SS_ACCESS_RIGHTS,
    GUEST_STATE_SS_BASE,
    GUEST_STATE_SS_LIMIT,
    GUEST_STATE_SS_SEL,
    GUEST_STATE_TR_ACCESS_RIGHTS,
    GUEST_STATE_TR_BASE,
    GUEST_STATE_TR_LIMIT,
    GUEST_STATE_TR_SEL,
    GUEST_STATE_VMCS_LINK_PTR,
    HOST_STATE_CR0,
    HOST_STATE_CR3,
    HOST_STATE_CR4,
    HOST_STATE_CS_SEL,
    HOST_STATE_DS_SEL,
    HOST_STATE_ES_SEL,
    HOST_STATE_FS_BASE,
    HOST_STATE_FS_SEL,
    HOST_STATE_GDTR_BASE,
    HOST_STATE_GS_BASE,
    HOST_STATE_GS_SEL,
    HOST_STATE_IA32_EFER,
    HOST_STATE_IA32_PAT,
    HOST_STATE_IA32_PERF_GLOBAL,
    HOST_STATE_IA32_SYSENTER_CS,
    HOST_STATE_IA32_SYSENTER_EIP,
    HOST_STATE_IA32_SYSENTER_ESP,
    HOST_STATE_IDTR_BASE,
    HOST_STATE_RIP,
    HOST_STATE_RSP,
    HOST_STATE_SS_SEL,
    HOST_STATE_TR_BASE,
    HOST_STATE_TR_SEL,
};
use crate::regs::{FixedReg, FixedRegisters};
use crate::vmx::Region;
use crate::VmmError;

verus! {


/// Host state loaded on VM-exit.
pub struct Host {
    pub cr0: Field,
    pub cr3: Field,
    pub cr4: Field,
    pub rsp: Field,
    pub rip: Field,
    pub cs: Field,
    pub ss: Field,
    pub ds: Field,
    pub es: Field,
    pub fs: Field,
    pub gs: Field,
    pub tr: Field,
    pub fs_base: Field,
    pub gs_base: Field,
    pub tr_base: Field,
    pub gdtr_base: Field,
    pub idtr_base: Field,
    pub ia32_sysenter_cs: Field,
    pub ia32_sysenter_esp: Field,
    pub ia32_sysenter_eip: Field,
    pub ia32_perf: Field,
    pub ia32_pat: Field,
    pub ia32_efer: Field,
}

/// Guest state loaded on VM-entry and saved on VM-exit.
pub struct Guest {
    pub cr0: FixedField,
    pub cr2: FakeField,
    pub cr3: Field,
    pub cr4: FixedField,
    pub dr6: FakeField,
    pub dr7: Field,
    pub rsp: Field,
    pub rip: Field,
    pub rflags: Field,
    pub es_sel: Field,
    pub es_base: Field,
    pub es_limit: Field,
    pub es_attr: Field,
    pub cs_sel: Field,
    pub cs_base: Field,
    pub cs_limit: Field,
    pub cs_attr: Field,
    pub ss_sel: Field,
    pub ss_base: Field,
    pub ss_limit: Field,
    pub ss_attr: Field,
    pub ds_sel: Field,
    pub ds_base: Field,
    pub ds_limit: Field,
    pub ds_attr: Field,
    pub fs_sel: Field,
    pub fs_base: Field,
    pub fs_limit: Field,
    pub fs_attr: Field,
    pub gs_sel: Field,
    pub gs_base: Field,
    pub gs_limit: Field,
    pub gs_attr: Field,
    pub ldtr_sel: Field,
    pub ldtr_base: Field,
    pub ldtr_limit: Field,
    pub ldtr_attr: Field,
    pub tr_sel: Field,
    pub tr_base: Field,
    pub tr_limit: Field,
    pub tr_attr: Field,
    pub gdtr_base: Field,
    pub gdtr_limit: Field,
    pub idtr_base: Field,
    pub idtr_limit: Field,
    pub ia32_dbgctl: Field,
    pub ia32_sysenter_cs: Field,
    pub ia32_sysenter_esp: Field,
    pub ia32_sysenter_eip: Field,
    pub ia32_perf: Field,
    pub ia32_pat: Field,
    pub ia32_efer: Field,
    pub ia32_bndcfg: Field,
    pub smbase: Field,
    pub activity: Field,
    pub interrupt: Field,
    pub pending_dbg: Field,
    pub vmcs_link_ptr: Field,
    pub preempt_timer: Field,
    pub pdpe_0: Field,
    pub pdpe_1: Field,
    pub pdpe_2: Field,
    pub pdpe_3: Field,
    pub guest_intr: Field,
    pub pml_index: Field,
}

/// Execution control fields.
pub struct ExecCtl {
    pub pin: FixedField,
    pub proc1: FixedField,
    pub proc2: FixedField,
    pub excp_bitmap: Field,
    pub pf_err_msk: Field,
    pub pf_err_mch: Field,
    pub ioA_bitmap: Field,
    pub ioB_bitmap: Field,
    pub tsc_offset: Field,
    pub cr0_mask: Field,
    pub cr4_mask: Field,
    pub cr0_read_shadow: Field,
    pub cr4_read_shadow: Field,
    pub cr3_target_0: Field,
    pub cr3_target_1: Field,
    pub cr3_target_2: Field,
    pub cr3_target_3: Field,
    pub cr3_target_cnt: Field,
    pub apic_addr: Field,
    pub vapic_addr: Field,
    pub tpr_threshold: Field,
    pub msr_bitmap: Field,
    pub executive_vmcs_ptr: Field,
    pub eptp: Field,
    pub vpid: Field,
    pub ple_gap: Field,
    pub ple_win: Field,
    pub posted_int: Field,
    pub vm_func: Field,
    pub eptp_list: Field,
    pub vmread_bitmap: Field,
    pub vmwrite_bitmap: Field,
    pub encls_bitmap: Field,
    pub pml_addr: Field,
    pub vmx_excp_addr: Field,
    pub eptp_idx: Field,
    pub xss_bitmap: Field,
}

/// VM-exit control fields.
pub struct ExitCtl {
    pub exit: FixedField,
    pub msr_store_cnt: Field,
    pub msr_store_addr: Field,
    pub msr_load_cnt: Field,
    pub msr_load_addr: Field,
}

/// VM-entry control fields.
pub struct EntryCtl {
    pub entry: FixedField,
    pub msr_load_cnt: Field,
    pub msr_load_addr: Field,
    pub int_info: Field,
    pub int_err_code: Field,
    pub insn_len: Field,
}

/// Read-only exit information fields.
pub struct Exit {
    pub reason: Field,
    pub qualification: Field,
    pub guest_linear: Field,
    pub guest_physical: Field,
    pub int_info: Field,
    pub int_err_code: Field,
    pub idt_info: Field,
    pub idt_err_code: Field,
    pub insn_len: Field,
    pub insn_info: Field,
    pub io_rcx: Field,
    pub io_rsi: Field,
    pub io_rdi: Field,
    pub io_rip: Field,
    pub vmx_insn_err: Field,
}

/// Encodings this group's commit may write.
pub open spec fn spec_host_key(k: u64) -> bool {
    ||| k == HOST_STATE_CR0 as u64
    ||| k == HOST_STATE_CR3 as u64
    ||| k == HOST_STATE_CR4 as u64
    ||| k == HOST_STATE_RSP as u64
    ||| k == HOST_STATE_RIP as u64
    ||| k == HOST_STATE_CS_SEL as u64
    ||| k == HOST_STATE_SS_SEL as u64
    ||| k == HOST_STATE_DS_SEL as u64
    ||| k == HOST_STATE_ES_SEL as u64
    ||| k == HOST_STATE_FS_SEL as u64
    ||| k == HOST_STATE_GS_SEL as u64
    ||| k == HOST_STATE_TR_SEL as u64
    ||| k == HOST_STATE_FS_BASE as u64
    ||| k == HOST_STATE_GS_BASE as u64
    ||| k == HOST_STATE_TR_BASE as u64
    ||| k == HOST_STATE_GDTR_BASE as u64
    ||| k == HOST_STATE_IDTR_BASE as u64
    ||| k == HOST_STATE_IA32_SYSENTER_CS as u64
    ||| k == HOST_STATE_IA32_SYSENTER_ESP as u64
    ||| k == HOST_STATE_IA32_SYSENTER_EIP as u64
    ||| k == HOST_STATE_IA32_PERF_GLOBAL as u64
    ||| k == HOST_STATE_IA32_PAT as u64
    ||| k == HOST_STATE_IA32_EFER as u64
}

/// Encodings this group's commit may write.
pub open spec fn spec_guest_key(k: u64) -> bool {
    ||| k == GUEST_STATE_CR0 as u64
    ||| k == GUEST_STATE_CR3 as u64
    ||| k == GUEST_STATE_CR4 as u64
    ||| k == GUEST_STATE_DR7 as u64
    ||| k == GUEST_STATE_RSP as u64
    ||| k == GUEST_STATE_RIP as u64
    ||| k == GUEST_STATE_RFLAGS as u64
    ||| k == GUEST_STATE_ES_SEL as u64
    ||| k == GUEST_STATE_ES_BASE as u64
    ||| k == GUEST_STATE_ES_LIMIT as u64
    ||| k == GUEST_STATE_ES_ACCESS_RIGHTS as u64
    ||| k == GUEST_STATE_CS_SEL as u64
    ||| k == GUEST_STATE_CS_BASE as u64
    ||| k == GUEST_STATE_CS_LIMIT as u64
    ||| k == GUEST_STATE_CS_ACCESS_RIGHTS as u64
    ||| k == GUEST_STATE_SS_SEL as u64
    ||| k == GUEST_STATE_SS_BASE as u64
    ||| k == GUEST_STATE_SS_LIMIT as u64
    ||| k == GUEST_STATE_SS_ACCESS_RIGHTS as u64
    ||| k == GUEST_STATE_DS_SEL as u64
    ||| k == GUEST_STATE_DS_BASE as u64
    ||| k == GUEST_STATE_DS_LIMIT as u64
    ||| k == GUEST_STATE_DS_ACCESS_RIGHTS as u64
    ||| k == GUEST_STATE_FS_SEL as u64
    ||| k == GUEST_STATE_FS_BASE as u64
    ||| k == GUEST_STATE_FS_LIMIT as u64
    ||| k == GUEST_STATE_FS_ACCESS_RIGHTS as u64
    ||| k == GUEST_STATE_GS_SEL as u64
    ||| k == GUEST_STATE_GS_BASE as u64
    ||| k == GUEST_STATE_GS_LIMIT as u64
    ||| k == GUEST_STATE_GS_ACCESS_RIGHTS as u64
    ||| k == GUEST_STATE_LDTR_SEL as u64
    ||| k == GUEST_STATE_LDTR_BASE as u64
    ||| k == GUEST_STATE_LDTR_LIMIT as u64
    ||| k == GUEST_STATE_LDTR_ACCESS_RIGHTS as u64
    ||| k == GUEST_STATE_TR_SEL as u64
    ||| k == GUEST_STATE_TR_BASE as u64
    ||| k == GUEST_STATE_TR_LIMIT as u64
    ||| k == GUEST_STATE_TR_ACCESS_RIGHTS as u64
    ||| k == GUEST_STATE_GDTR_BASE as u64
    ||| k == GUEST_STATE_GDTR_LIMIT as u64
    ||| k == GUEST_STATE_IDTR_BASE as u64
    ||| k == GUEST_STATE_IDTR_LIMIT as u64
    ||| k == GUEST_STATE_IA32_SYSENTER_CS as u64
    ||| k == GUEST_STATE_IA32_SYSENTER_ESP as u64
    ||| k == GUEST_STATE_IA32_SYSENTER_EIP as u64
    ||| k == GUEST_STATE_IA32_PERF_GLOBAL as u64
    ||| k == GUEST_STATE_IA32_PAT as u64
    ||| k == GUEST_STATE_IA32_EFER as u64
    ||| k == GUEST_STATE_SMBASE as u64
    ||| k == GUEST_STATE_ACTIVITY_STATE as u64
    ||| k == GUEST_STATE_INT_STATE as u64
    ||| k == GUEST_STATE_PENDING_DBG_EXCP as u64
    ||| k == GUEST_STATE_VMCS_LINK_PTR as u64
    ||| k == GUEST_STATE_PREEMPT_TIMER as u64
    ||| k == GUEST_STATE_PDPTE0 as u64
    ||| k == GUEST_STATE_PDPTE1 as u64
    ||| k == GUEST_STATE_PDPTE2 as u64
    ||| k == GUEST_STATE_PDPTE3 as u64
}

/// Encodings this group's commit may write.
pub open spec fn spec_exec_key(k: u64) -> bool {
    ||| k == EXEC_CTRL_PINBASED as u64
    ||| k == EXEC_CTRL_PROCBASED_1 as u64
    ||| k == EXEC_CTRL_PROCBASED_2 as u64
    ||| k == EXEC_CTRL_EXCP_BITMAP as u64
    ||| k == EXEC_CTRL_PF_ERR_MASK as u64
    ||| k == EXEC_CTRL_PF_ERR_MATCH as u64
    ||| k == EXEC_CTRL_ADDR_IO_MAP_A as u64
    ||| k == EXEC_CTRL_ADDR_IO_MAP_B as u64
    ||| k == EXEC_CTRL_TSC_OFFSET as u64
    ||| k == EXEC_CTRL_CR0_GUEST_HOST_MASK as u64
    ||| k == EXEC_CTRL_CR4_GUEST_HOST_MASK as u64
    ||| k == EXEC_CTRL_CR0_READ_SHADOW as u64
    ||| k == EXEC_CTRL_CR4_READ_SHADOW as u64
    ||| k == EXEC_CTRL_CR3_TARGET_0 as u64
    ||| k == EXEC_CTRL_CR3_TARGET_1 as u64
    ||| k == EXEC_CTRL_CR3_TARGET_2 as u64
    ||| k == EXEC_CTRL_CR3_TARGET_3 as u64
    ||| k == EXEC_CTRL_CR3_TARGET_COUNT as u64
    ||| k == EXEC_CTRL_APIC_PAGE_ADDR as u64
    ||| k == EXEC_CTRL_VAPIC_PAGE_ADDR as u64
    ||| k == EXEC_CTRL_TPR_THRESHOLD as u64
    ||| k == EXEC_CTRL_ADDR_MSR_MAP as u64
    ||| k == EXEC_CTRL_VMCS_PTR as u64
    ||| k == EXEC_CTRL_EPTP as u64
    ||| k == EXEC_CTRL_VPID as u64
}

/// Encodings this group's commit may write.
pub open spec fn spec_exitctl_key(k: u64) -> bool {
    ||| k == EXIT_CTRLS as u64
    ||| k == EXIT_CTRL_MSR_STORE_COUNT as u64
    ||| k == EXIT_CTRL_MSR_STORE_ADDR as u64
    ||| k == EXIT_CTRL_MSR_LOAD_COUNT as u64
    ||| k == EXIT_CTRL_MSR_LOAD_ADDR as u64
}

/// Encodings this group's commit may write.
pub open spec fn spec_entryctl_key(k: u64) -> bool {
    ||| k == ENTRY_CTRLS as u64
    ||| k == ENTRY_CTRL_MSR_LOAD_COUNT as u64
    ||| k == ENTRY_CTRL_MSR_LOAD_ADDR as u64
    ||| k == ENTRY_CTRL_INT_INFO as u64
    ||| k == ENTRY_CTRL_EXCP_ERR_CODE as u64
    ||| k == ENTRY_CTRL_INSN_LEN as u64
}

impl Host {
    /// Every field carries its Intel encoding, mirror marks clear.
    pub open spec fn encoded(&self) -> bool {
        &&& self.cr0.encoding.0 == HOST_STATE_CR0
        &&& self.cr3.encoding.0 == HOST_STATE_CR3
        &&& self.cr4.encoding.0 == HOST_STATE_CR4
        &&& self.rsp.encoding.0 == HOST_STATE_RSP
        &&& self.rip.encoding.0 == HOST_STATE_RIP
        &&& self.cs.encoding.0 == HOST_STATE_CS_SEL
        &&& self.ss.encoding.0 == HOST_STATE_SS_SEL
        &&& self.ds.encoding.0 == HOST_STATE_DS_SEL
        &&& self.es.encoding.0 == HOST_STATE_ES_SEL
        &&& self.fs.encoding.0 == HOST_STATE_FS_SEL
        &&& self.gs.encoding.0 == HOST_STATE_GS_SEL
        &&& self.tr.encoding.0 == HOST_STATE_TR_SEL
        &&& self.fs_base.encoding.0 == HOST_STATE_FS_BASE
        &&& self.gs_base.encoding.0 == HOST_STATE_GS_BASE
        &&& self.tr_base.encoding.0 == HOST_STATE_TR_BASE
        &&& self.gdtr_base.encoding.0 == HOST_STATE_GDTR_BASE
        &&& self.idtr_base.encoding.0 == HOST_STATE_IDTR_BASE
        &&& self.ia32_sysenter_cs.encoding.0 == HOST_STATE_IA32_SYSENTER_CS
        &&& self.ia32_sysenter_esp.encoding.0 == HOST_STATE_IA32_SYSENTER_ESP
        &&& self.ia32_sysenter_eip.encoding.0 == HOST_STATE_IA32_SYSENTER_EIP
        &&& self.ia32_perf.encoding.0 == HOST_STATE_IA32_PERF_GLOBAL
        &&& self.ia32_pat.encoding.0 == HOST_STATE_IA32_PAT
        &&& self.ia32_efer.encoding.0 == HOST_STATE_IA32_EFER
    }

    /// Assign every field its Intel encoding.
    pub fn encode(&mut self)
        ensures
            final(self).cr0 == (Field { encoding: Encoding(HOST_STATE_CR0), ..old(self).cr0 }),
            final(self).cr3 == (Field { encoding: Encoding(HOST_STATE_CR3), ..old(self).cr3 }),
            final(self).cr4 == (Field { encoding: Encoding(HOST_STATE_CR4), ..old(self).cr4 }),
            final(self).rsp == (Field { encoding: Encoding(HOST_STATE_RSP), ..old(self).rsp }),
            final(self).rip == (Field { encoding: Encoding(HOST_STATE_RIP), ..old(self).rip }),
            final(self).cs == (Field { encoding: Encoding(HOST_STATE_CS_SEL), ..old(self).cs }),
            final(self).ss == (Field { encoding: Encoding(HOST_STATE_SS_SEL), ..old(self).ss }),
            final(self).ds == (Field { encoding: Encoding(HOST_STATE_DS_SEL), ..old(self).ds }),
            final(self).es == (Field { encoding: Encoding(HOST_STATE_ES_SEL), ..old(self).es }),
            final(self).fs == (Field { encoding: Encoding(HOST_STATE_FS_SEL), ..old(self).fs }),
            final(self).gs == (Field { encoding: Encoding(HOST_STATE_GS_SEL), ..old(self).gs }),
            final(self).tr == (Field { encoding: Encoding(HOST_STATE_TR_SEL), ..old(self).tr }),
            final(self).fs_base == (Field { encoding: Encoding(HOST_STATE_FS_BASE), ..old(self).fs_base }),
            final(self).gs_base == (Field { encoding: Encoding(HOST_STATE_GS_BASE), ..old(self).gs_base }),
            final(self).tr_base == (Field { encoding: Encoding(HOST_STATE_TR_BASE), ..old(self).tr_base }),
            final(self).gdtr_base == (Field { encoding: Encoding(HOST_STATE_GDTR_BASE), ..old(self).gdtr_base }),
            final(self).idtr_base == (Field { encoding: Encoding(HOST_STATE_IDTR_BASE), ..old(self).idtr_base }),
            final(self).ia32_sysenter_cs == (Field { encoding: Encoding(HOST_STATE_IA32_SYSENTER_CS), ..old(self).ia32_sysenter_cs }),
            final(self).ia32_sysenter_esp == (Field { encoding: Encoding(HOST_STATE_IA32_SYSENTER_ESP), ..old(self).ia32_sysenter_esp }),
            final(self).ia32_sysenter_eip == (Field { encoding: Encoding(HOST_STATE_IA32_SYSENTER_EIP), ..old(self).ia32_sysenter_eip }),
            final(self).ia32_perf == (Field { encoding: Encoding(HOST_STATE_IA32_PERF_GLOBAL), ..old(self).ia32_perf }),
            final(self).ia32_pat == (Field { encoding: Encoding(HOST_STATE_IA32_PAT), ..old(self).ia32_pat }),
            final(self).ia32_efer == (Field { encoding: Encoding(HOST_STATE_IA32_EFER), ..old(self).ia32_efer }),
    {
        self.cr0.set_encoding(HOST_STATE_CR0);
        self.cr3.set_encoding(HOST_STATE_CR3);
        self.cr4.set_encoding(HOST_STATE_CR4);
        self.rsp.set_encoding(HOST_STATE_RSP);
        self.rip.set_encoding(HOST_STATE_RIP);
        self.cs.set_encoding(HOST_STATE_CS_SEL);
        self.ss.set_encoding(HOST_STATE_SS_SEL);
        self.ds.set_encoding(HOST_STATE_DS_SEL);
        self.es.set_encoding(HOST_STATE_ES_SEL);
        self.fs.set_encoding(HOST_STATE_FS_SEL);
        self.gs.set_encoding(HOST_STATE_GS_SEL);
        self.tr.set_encoding(HOST_STATE_TR_SEL);
        self.fs_base.set_encoding(HOST_STATE_FS_BASE);
        self.gs_base.set_encoding(HOST_STATE_GS_BASE);
        self.tr_base.set_encoding(HOST_STATE_TR_BASE);
        self.gdtr_base.set_encoding(HOST_STATE_GDTR_BASE);
        self.idtr_base.set_encoding(HOST_STATE_IDTR_BASE);
        self.ia32_sysenter_cs.set_encoding(HOST_STATE_IA32_SYSENTER_CS);
        self.ia32_sysenter_esp.set_encoding(HOST_STATE_IA32_SYSENTER_ESP);
        self.ia32_sysenter_eip.set_encoding(HOST_STATE_IA32_SYSENTER_EIP);
        self.ia32_perf.set_encoding(HOST_STATE_IA32_PERF_GLOBAL);
        self.ia32_pat.set_encoding(HOST_STATE_IA32_PAT);
        self.ia32_efer.set_encoding(HOST_STATE_IA32_EFER);
    }

    #[verifier::rlimit(100)]
    #[verifier::spinoff_prover]
    /// Flush every host field; the PAT, EFER and PERF words only when the exit controls load them.
    pub fn commit(&mut self, hw: &mut Region, exit_ctls: u64) -> (r: Result<(), VmmError>)
        requires
            old(self).encoded(),
        ensures
            r is Ok,
            final(self).encoded(),
            final(hw).revision_id == old(hw).revision_id,
            final(hw).cr2 == old(hw).cr2,
            final(hw).dr6 == old(hw).dr6,
            final(hw).spec_field(HOST_STATE_ES_SEL as u64) == Some(old(self).es.value),
            final(hw).spec_field(HOST_STATE_CS_SEL as u64) == Some(old(self).cs.value),
            final(hw).spec_field(HOST_STATE_SS_SEL as u64) == Some(old(self).ss.value),
            final(hw).spec_field(HOST_STATE_DS_SEL as u64) == Some(old(self).ds.value),
            final(hw).spec_field(HOST_STATE_FS_SEL as u64) == Some(old(self).fs.value),
            final(hw).spec_field(HOST_STATE_GS_SEL as u64) == Some(old(self).gs.value),
            final(hw).spec_field(HOST_STATE_TR_SEL as u64) == Some(old(self).tr.value),
            exit_ctls & crate::regs::EXIT_LOAD_PAT != 0 ==> final(hw).spec_field(HOST_STATE_IA32_PAT as u64) == Some(old(self).ia32_pat.value),
            !(exit_ctls & crate::regs::EXIT_LOAD_PAT != 0) ==> final(hw).spec_field(HOST_STATE_IA32_PAT as u64) == old(hw).spec_field(HOST_STATE_IA32_PAT as u64),
            exit_ctls & crate::regs::EXIT_LOAD_EFER != 0 ==> final(hw).spec_field(HOST_STATE_IA32_EFER as u64) == Some(old(self).ia32_efer.value),
            !(exit_ctls & crate::regs::EXIT_LOAD_EFER != 0) ==> final(hw).spec_field(HOST_STATE_IA32_EFER as u64) == old(hw).spec_field(HOST_STATE_IA32_EFER as u64),
            exit_ctls & crate::regs::EXIT_LOAD_PERF != 0 ==> final(hw).spec_field(HOST_STATE_IA32_PERF_GLOBAL as u64) == Some(old(self).ia32_perf.value),
            !(exit_ctls & crate::regs::EXIT_LOAD_PERF != 0) ==> final(hw).spec_field(HOST_STATE_IA32_PERF_GLOBAL as u64) == old(hw).spec_field(HOST_STATE_IA32_PERF_GLOBAL as u64),
            final(hw).spec_field(HOST_STATE_IA32_SYSENTER_CS as u64) == Some(old(self).ia32_sysenter_cs.value),
            final(hw).spec_field(HOST_STATE_CR0 as u64) == Some(old(self).cr0.value),
            final(hw).spec_field(HOST_STATE_CR3 as u64) == Some(old(self).cr3.value),
            final(hw).spec_field(HOST_STATE_CR4 as u64) == Some(old(self).cr4.value),
            final(hw).spec_field(HOST_STATE_FS_BASE as u64) == Some(old(self).fs_base.value),
            final(hw).spec_field(HOST_STATE_GS_BASE as u64) == Some(old(self).gs_base.value),
            final(hw).spec_field(HOST_STATE_TR_BASE as u64) == Some(old(self).tr_base.value),
            final(hw).spec_field(HOST_STATE_GDTR_BASE as u64) == Some(old(self).gdtr_base.value),
            final(hw).spec_field(HOST_STATE_IDTR_BASE as u64) == Some(old(self).idtr_base.value),
            final(hw).spec_field(HOST_STATE_IA32_SYSENTER_ESP as u64) == Some(old(self).ia32_sysenter_esp.value),
            final(hw).spec_field(HOST_STATE_IA32_SYSENTER_EIP as u64) == Some(old(self).ia32_sysenter_eip.value),
            final(hw).spec_field(HOST_STATE_RSP as u64) == Some(old(self).rsp.value),
            final(hw).spec_field(HOST_STATE_RIP as u64) == Some(old(self).rip.value),
            forall|k: u64| !spec_host_key(k) ==> (#[trigger] final(hw).spec_field(k)) == old(hw).spec_field(k),
            final(self).cr0 == old(self).cr0,
            final(self).cr3 == old(self).cr3,
            final(self).cr4 == old(self).cr4,
            final(self).rsp == old(self).rsp,
            final(self).rip == old(self).rip,
            final(self).cs == old(self).cs,
            final(self).ss == old(self).ss,
            final(self).ds == old(self).ds,
            final(self).es == old(self).es,
            final(self).fs == old(self).fs,
            final(self).gs == old(self).gs,
            final(self).tr == old(self).tr,
            final(self).fs_base == old(self).fs_base,
            final(self).gs_base == old(self).gs_base,
            final(self).tr_base == old(self).tr_base,
            final(self).gdtr_base == old(self).gdtr_base,
            final(self).idtr_base == old(self).idtr_base,
            final(self).ia32_sysenter_cs == old(self).ia32_sysenter_cs,
            final(self).ia32_sysenter_esp == old(self).ia32_sysenter_esp,
            final(self).ia32_sysenter_eip == old(self).ia32_sysenter_eip,
            final(self).ia32_perf == old(self).ia32_perf,
            final(self).ia32_pat == old(self).ia32_pat,
            final(self).ia32_efer == old(self).ia32_efer,
    {
        self.es.force_flush(hw)?;
        self.cs.force_flush(hw)?;
        self.ss.force_flush(hw)?;
        self.ds.force_flush(hw)?;
        self.fs.force_flush(hw)?;
        self.gs.force_flush(hw)?;
        self.tr.force_flush(hw)?;
        if exit_ctls & crate::regs::EXIT_LOAD_PAT != 0 {
            self.ia32_pat.force_flush(hw)?;
        }
        if exit_ctls & crate::regs::EXIT_LOAD_EFER != 0 {
            self.ia32_efer.force_flush(hw)?;
        }
        if exit_ctls & crate::regs::EXIT_LOAD_PERF != 0 {
            self.ia32_perf.force_flush(hw)?;
        }
        self.ia32_sysenter_cs.force_flush(hw)?;
        self.cr0.force_flush(hw)?;
        self.cr3.force_flush(hw)?;
        self.cr4.force_flush(hw)?;
        self.fs_base.force_flush(hw)?;
        self.gs_base.force_flush(hw)?;
        self.tr_base.force_flush(hw)?;
        self.gdtr_base.force_flush(hw)?;
        self.idtr_base.force_flush(hw)?;
        self.ia32_sysenter_esp.force_flush(hw)?;
        self.ia32_sysenter_eip.force_flush(hw)?;
        self.rsp.force_flush(hw)?;
        self.rip.force_flush(hw)?;
        Ok(())
    }
}

impl Guest {
    /// Every field carries its Intel encoding, mirror marks clear.
    pub open spec fn encoded(&self) -> bool {
        &&& self.cr0.encoding.0 == GUEST_STATE_CR0
        &&& self.cr2.encoding.0 == GUEST_STATE_CR2
        &&& self.cr3.encoding.0 == GUEST_STATE_CR3
        &&& self.cr4.encoding.0 == GUEST_STATE_CR4
        &&& self.dr6.encoding.0 == GUEST_STATE_DR6
        &&& self.dr7.encoding.0 == GUEST_STATE_DR7
        &&& self.rsp.encoding.0 == GUEST_STATE_RSP
        &&& self.rip.encoding.0 == GUEST_STATE_RIP
        &&& self.rflags.encoding.0 == GUEST_STATE_RFLAGS
        &&& self.es_sel.encoding.0 == GUEST_STATE_ES_SEL
        &&& self.es_base.encoding.0 == GUEST_STATE_ES_BASE
        &&& self.es_limit.encoding.0 == GUEST_STATE_ES_LIMIT
        &&& self.es_attr.encoding.0 == GUEST_STATE_ES_ACCESS_RIGHTS
        &&& self.cs_sel.encoding.0 == GUEST_STATE_CS_SEL
        &&& self.cs_base.encoding.0 == GUEST_STATE_CS_BASE
        &&& self.cs_limit.encoding.0 == GUEST_STATE_CS_LIMIT
        &&& self.cs_attr.encoding.0 == GUEST_STATE_CS_ACCESS_RIGHTS
        &&& self.ss_sel.encoding.0 == GUEST_STATE_SS_SEL
        &&& self.ss_base.encoding.0 == GUEST_STATE_SS_BASE
        &&& self.ss_limit.encoding.0 == GUEST_STATE_SS_LIMIT
        &&& self.ss_attr.encoding.0 == GUEST_STATE_SS_ACCESS_RIGHTS
        &&& self.ds_sel.encoding.0 == GUEST_STATE_DS_SEL
        &&& self.ds_base.encoding.0 == GUEST_STATE_DS_BASE
        &&& self.ds_limit.encoding.0 == GUEST_STATE_DS_LIMIT
        &&& self.ds_attr.encoding.0 == GUEST_STATE_DS_ACCESS_RIGHTS
        &&& self.fs_sel.encoding.0 == GUEST_STATE_FS_SEL
        &&& self.fs_base.encoding.0 == GUEST_STATE_FS_BASE
        &&& self.fs_limit.encoding.0 == GUEST_STATE_FS_LIMIT
        &&& self.fs_attr.encoding.0 == GUEST_STATE_FS_ACCESS_RIGHTS
        &&& self.gs_sel.encoding.0 == GUEST_STATE_GS_SEL
        &&& self.gs_base.encoding.0 == GUEST_STATE_GS_BASE
        &&& self.gs_limit.encoding.0 == GUEST_STATE_GS_LIMIT
        &&& self.gs_attr.encoding.0 == GUEST_STATE_GS_ACCESS_RIGHTS
        &&& self.ldtr_sel.encoding.0 == GUEST_STATE_LDTR_SEL
        &&& self.ldtr_base.encoding.0 == GUEST_STATE_LDTR_BASE
        &&& self.ldtr_limit.encoding.0 == GUEST_STATE_LDTR_LIMIT
        &&& self.ldtr_attr.encoding.0 == GUEST_STATE_LDTR_ACCESS_RIGHTS
        &&& self.tr_sel.encoding.0 == GUEST_STATE_TR_SEL
        &&& self.tr_base.encoding.0 == GUEST_STATE_TR_BASE
        &&& self.tr_limit.encoding.0 == GUEST_STATE_TR_LIMIT
        &&& self.tr_attr.encoding.0 == GUEST_STATE_TR_ACCESS_RIGHTS
        &&& self.gdtr_base.encoding.0 == GUEST_STATE_GDTR_BASE
        &&& self.gdtr_limit.encoding.0 == GUEST_STATE_GDTR_LIMIT
        &&& self.idtr_base.encoding.0 == GUEST_STATE_IDTR_BASE
        &&& self.idtr_limit.encoding.0 == GUEST_STATE_IDTR_LIMIT
        &&& self.ia32_dbgctl.encoding.0 == GUEST_STATE_IA32_DBG_CTL
        &&& self.ia32_sysenter_cs.encoding.0 == GUEST_STATE_IA32_SYSENTER_CS
        &&& self.ia32_sysenter_esp.encoding.0 == GUEST_STATE_IA32_SYSENTER_ESP
        &&& self.ia32_sysenter_eip.encoding.0 == GUEST_STATE_IA32_SYSENTER_EIP
        &&& self.ia32_perf.encoding.0 == GUEST_STATE_IA32_PERF_GLOBAL
        &&& self.ia32_pat.encoding.0 == GUEST_STATE_IA32_PAT
        &&& self.ia32_efer.encoding.0 == GUEST_STATE_IA32_EFER
        &&& self.ia32_bndcfg.encoding.0 == GUEST_STATE_IA32_BNDCFG
        &&& self.smbase.encoding.0 == GUEST_STATE_SMBASE
        &&& self.activity.encoding.0 == GUEST_STATE_ACTIVITY_STATE
        &&& self.interrupt.encoding.0 == GUEST_STATE_INT_STATE
        &&& self.pending_dbg.encoding.0 == GUEST_STATE_PENDING_DBG_EXCP
        &&& self.vmcs_link_ptr.encoding.0 == GUEST_STATE_VMCS_LINK_PTR
        &&& self.preempt_timer.encoding.0 == GUEST_STATE_PREEMPT_TIMER
        &&& self.pdpe_0.encoding.0 == GUEST_STATE_PDPTE0
        &&& self.pdpe_1.encoding.0 == GUEST_STATE_PDPTE1
        &&& self.pdpe_2.encoding.0 == GUEST_STATE_PDPTE2
        &&& self.pdpe_3.encoding.0 == GUEST_STATE_PDPTE3
        &&& self.guest_intr.encoding.0 == GUEST_STATE_INTR
        &&& self.pml_index.encoding.0 == GUEST_STATE_PML_IDX
    }

    /// Assign every field its Intel encoding.
    pub fn encode(&mut self)
        ensures
            final(self).cr0 == (FixedField { encoding: Encoding(GUEST_STATE_CR0), ..old(self).cr0 }),
            final(self).cr2 == (FakeField { encoding: Encoding(GUEST_STATE_CR2), ..old(self).cr2 }),
            final(self).cr3 == (Field { encoding: Encoding(GUEST_STATE_CR3), ..old(self).cr3 }),
            final(self).cr4 == (FixedField { encoding: Encoding(GUEST_STATE_CR4), ..old(self).cr4 }),
            final(self).dr6 == (FakeField { encoding: Encoding(GUEST_STATE_DR6), ..old(self).dr6 }),
            final(self).dr7 == (Field { encoding: Encoding(GUEST_STATE_DR7), ..old(self).dr7 }),
            final(self).rsp == (Field { encoding: Encoding(GUEST_STATE_RSP), ..old(self).rsp }),
            final(self).rip == (Field { encoding: Encoding(GUEST_STATE_RIP), ..old(self).rip }),
            final(self).rflags == (Field { encoding: Encoding(GUEST_STATE_RFLAGS), ..old(self).rflags }),
            final(self).es_sel == (Field { encoding: Encoding(GUEST_STATE_ES_SEL), ..old(self).es_sel }),
            final(self).es_base == (Field { encoding: Encoding(GUEST_STATE_ES_BASE), ..old(self).es_base }),
            final(self).es_limit == (Field { encoding: Encoding(GUEST_STATE_ES_LIMIT), ..old(self).es_limit }),
            final(self).es_attr == (Field { encoding: Encoding(GUEST_STATE_ES_ACCESS_RIGHTS), ..old(self).es_attr }),
            final(self).cs_sel == (Field { encoding: Encoding(GUEST_STATE_CS_SEL), ..old(self).cs_sel }),
            final(self).cs_base == (Field { encoding: Encoding(GUEST_STATE_CS_BASE), ..old(self).cs_base }),
            final(self).cs_limit == (Field { encoding: Encoding(GUEST_STATE_CS_LIMIT), ..old(self).cs_limit }),
            final(self).cs_attr == (Field { encoding: Encoding(GUEST_STATE_CS_ACCESS_RIGHTS), ..old(self).cs_attr }),
            final(self).ss_sel == (Field { encoding: Encoding(GUEST_STATE_SS_SEL), ..old(self).ss_sel }),
            final(self).ss_base == (Field { encoding: Encoding(GUEST_STATE_SS_BASE), ..old(self).ss_base }),
            final(self).ss_limit == (Field { encoding: Encoding(GUEST_STATE_SS_LIMIT), ..old(self).ss_limit }),
            final(self).ss_attr == (Field { encoding: Encoding(GUEST_STATE_SS_ACCESS_RIGHTS), ..old(self).ss_attr }),
            final(self).ds_sel == (Field { encoding: Encoding(GUEST_STATE_DS_SEL), ..old(self).ds_sel }),
            final(self).ds_base == (Field { encoding: Encoding(GUEST_STATE_DS_BASE), ..old(self).ds_base }),
            final(self).ds_limit == (Field { encoding: Encoding(GUEST_STATE_DS_LIMIT), ..old(self).ds_limit }),
            final(self).ds_attr == (Field { encoding: Encoding(GUEST_STATE_DS_ACCESS_RIGHTS), ..old(self).ds_attr }),
            final(self).fs_sel == (Field { encoding: Encoding(GUEST_STATE_FS_SEL), ..old(self).fs_sel }),
            final(self).fs_base == (Field { encoding: Encoding(GUEST_STATE_FS_BASE), ..old(self).fs_base }),
            final(self).fs_limit == (Field { encoding: Encoding(GUEST_STATE_FS_LIMIT), ..old(self).fs_limit }),
            final(self).fs_attr == (Field { encoding: Encoding(GUEST_STATE_FS_ACCESS_RIGHTS), ..old(self).fs_attr }),
            final(self).gs_sel == (Field { encoding: Encoding(GUEST_STATE_GS_SEL), ..old(self).gs_sel }),
            final(self).gs_base == (Field { encoding: Encoding(GUEST_STATE_GS_BASE), ..old(self).gs_base }),
            final(self).gs_limit == (Field { encoding: Encoding(GUEST_STATE_GS_LIMIT), ..old(self).gs_limit }),
            final(self).gs_attr == (Field { encoding: Encoding(GUEST_STATE_GS_ACCESS_RIGHTS), ..old(self).gs_attr }),
            final(self).ldtr_sel == (Field { encoding: Encoding(GUEST_STATE_LDTR_SEL), ..old(self).ldtr_sel }),
            final(self).ldtr_base == (Field { encoding: Encoding(GUEST_STATE_LDTR_BASE), ..old(self).ldtr_base }),
            final(self).ldtr_limit == (Field { encoding: Encoding(GUEST_STATE_LDTR_LIMIT), ..old(self).ldtr_limit }),
            final(self).ldtr_attr == (Field { encoding: Encoding(GUEST_STATE_LDTR_ACCESS_RIGHTS), ..old(self).ldtr_attr }),
            final(self).tr_sel == (Field { encoding: Encoding(GUEST_STATE_TR_SEL), ..old(self).tr_sel }),
            final(self).tr_base == (Field { encoding: Encoding(GUEST_STATE_TR_BASE), ..old(self).tr_base }),
            final(self).tr_limit == (Field { encoding: Encoding(GUEST_STATE_TR_LIMIT), ..old(self).tr_limit }),
            final(self).tr_attr == (Field { encoding: Encoding(GUEST_STATE_TR_ACCESS_RIGHTS), ..old(self).tr_attr }),
            final(self).gdtr_base == (Field { encoding: Encoding(GUEST_STATE_GDTR_BASE), ..old(self).gdtr_base }),
            final(self).gdtr_limit == (Field { encoding: Encoding(GUEST_STATE_GDTR_LIMIT), ..old(self).gdtr_limit }),
            final(self).idtr_base == (Field { encoding: Encoding(GUEST_STATE_IDTR_BASE), ..old(self).idtr_base }),
            final(self).idtr_limit == (Field { encoding: Encoding(GUEST_STATE_IDTR_LIMIT), ..old(self).idtr_limit }),
            final(self).ia32_dbgctl == (Field { encoding: Encoding(GUEST_STATE_IA32_DBG_CTL), ..old(self).ia32_dbgctl }),
            final(self).ia32_sysenter_cs == (Field { encoding: Encoding(GUEST_STATE_IA32_SYSENTER_CS), ..old(self).ia32_sysenter_cs }),
            final(self).ia32_sysenter_esp == (Field { encoding: Encoding(GUEST_STATE_IA32_SYSENTER_ESP), ..old(self).ia32_sysenter_esp }),
            final(self).ia32_sysenter_eip == (Field { encoding: Encoding(GUEST_STATE_IA32_SYSENTER_EIP), ..old(self).ia32_sysenter_eip }),
            final(self).ia32_perf == (Field { encoding: Encoding(GUEST_STATE_IA32_PERF_GLOBAL), ..old(self).ia32_perf }),
            final(self).ia32_pat == (Field { encoding: Encoding(GUEST_STATE_IA32_PAT), ..old(self).ia32_pat }),
            final(self).ia32_efer == (Field { encoding: Encoding(GUEST_STATE_IA32_EFER), ..old(self).ia32_efer }),
            final(self).ia32_bndcfg == (Field { encoding: Encoding(GUEST_STATE_IA32_BNDCFG), ..old(self).ia32_bndcfg }),
            final(self).smbase == (Field { encoding: Encoding(GUEST_STATE_SMBASE), ..old(self).smbase }),
            final(self).activity == (Field { encoding: Encoding(GUEST_STATE_ACTIVITY_STATE), ..old(self).activity }),
            final(self).interrupt == (Field { encoding: Encoding(GUEST_STATE_INT_STATE), ..old(self).interrupt }),
            final(self).pending_dbg == (Field { encoding: Encoding(GUEST_STATE_PENDING_DBG_EXCP), ..old(self).pending_dbg }),
            final(self).vmcs_link_ptr == (Field { encoding: Encoding(GUEST_STATE_VMCS_LINK_PTR), ..old(self).vmcs_link_ptr }),
            final(self).preempt_timer == (Field { encoding: Encoding(GUEST_STATE_PREEMPT_TIMER), ..old(self).preempt_timer }),
            final(self).pdpe_0 == (Field { encoding: Encoding(GUEST_STATE_PDPTE0), ..old(self).pdpe_0 }),
            final(self).pdpe_1 == (Field { encoding: Encoding(GUEST_STATE_PDPTE1), ..old(self).pdpe_1 }),
            final(self).pdpe_2 == (Field { encoding: Encoding(GUEST_STATE_PDPTE2), ..old(self).pdpe_2 }),
            final(self).pdpe_3 == (Field { encoding: Encoding(GUEST_STATE_PDPTE3), ..old(self).pdpe_3 }),
            final(self).guest_intr == (Field { encoding: Encoding(GUEST_STATE_INTR), ..old(self).guest_intr }),
            final(self).pml_index == (Field { encoding: Encoding(GUEST_STATE_PML_IDX), ..old(self).pml_index }),
    {
        self.cr0.set_encoding(GUEST_STATE_CR0);
        self.cr2.set_encoding(GUEST_STATE_CR2);
        self.cr3.set_encoding(GUEST_STATE_CR3);
        self.cr4.set_encoding(GUEST_STATE_CR4);
        self.dr6.set_encoding(GUEST_STATE_DR6);
        self.dr7.set_encoding(GUEST_STATE_DR7);
        self.rsp.set_encoding(GUEST_STATE_RSP);
        self.rip.set_encoding(GUEST_STATE_RIP);
        self.rflags.set_encoding(GUEST_STATE_RFLAGS);
        self.es_sel.set_encoding(GUEST_STATE_ES_SEL);
        self.es_base.set_encoding(GUEST_STATE_ES_BASE);
        self.es_limit.set_encoding(GUEST_STATE_ES_LIMIT);
        self.es_attr.set_encoding(GUEST_STATE_ES_ACCESS_RIGHTS);
        self.cs_sel.set_encoding(GUEST_STATE_CS_SEL);
        self.cs_base.set_encoding(GUEST_STATE_CS_BASE);
        self.cs_limit.set_encoding(GUEST_STATE_CS_LIMIT);
        self.cs_attr.set_encoding(GUEST_STATE_CS_ACCESS_RIGHTS);
        self.ss_sel.set_encoding(GUEST_STATE_SS_SEL);
        self.ss_base.set_encoding(GUEST_STATE_SS_BASE);
        self.ss_limit.set_encoding(GUEST_STATE_SS_LIMIT);
        self.ss_attr.set_encoding(GUEST_STATE_SS_ACCESS_RIGHTS);
        self.ds_sel.set_encoding(GUEST_STATE_DS_SEL);
        self.ds_base.set_encoding(GUEST_STATE_DS_BASE);
        self.ds_limit.set_encoding(GUEST_STATE_DS_LIMIT);
        self.ds_attr.set_encoding(GUEST_STATE_DS_ACCESS_RIGHTS);
        self.fs_sel.set_encoding(GUEST_STATE_FS_SEL);
        self.fs_base.set_encoding(GUEST_STATE_FS_BASE);
        self.fs_limit.set_encoding(GUEST_STATE_FS_LIMIT);
        self.fs_attr.set_encoding(GUEST_STATE_FS_ACCESS_RIGHTS);
        self.gs_sel.set_encoding(GUEST_STATE_GS_SEL);
        self.gs_base.set_encoding(GUEST_STATE_GS_BASE);
        self.gs_limit.set_encoding(GUEST_STATE_GS_LIMIT);
        self.gs_attr.set_encoding(GUEST_STATE_GS_ACCESS_RIGHTS);
        self.ldtr_sel.set_encoding(GUEST_STATE_LDTR_SEL);
        self.ldtr_base.set_encoding(GUEST_STATE_LDTR_BASE);
        self.ldtr_limit.set_encoding(GUEST_STATE_LDTR_LIMIT);
        self.ldtr_attr.set_encoding(GUEST_STATE_LDTR_ACCESS_RIGHTS);
        self.tr_sel.set_encoding(GUEST_STATE_TR_SEL);
        self.tr_base.set_encoding(GUEST_STATE_TR_BASE);
        self.tr_limit.set_encoding(GUEST_STATE_TR_LIMIT);
        self.tr_attr.set_encoding(GUEST_STATE_TR_ACCESS_RIGHTS);
        self.gdtr_base.set_encoding(GUEST_STATE_GDTR_BASE);
        self.gdtr_limit.set_encoding(GUEST_STATE_GDTR_LIMIT);
        self.idtr_base.set_encoding(GUEST_STATE_IDTR_BASE);
        self.idtr_limit.set_encoding(GUEST_STATE_IDTR_LIMIT);
        self.ia32_dbgctl.set_encoding(GUEST_STATE_IA32_DBG_CTL);
        self.ia32_sysenter_cs.set_encoding(GUEST_STATE_IA32_SYSENTER_CS);
        self.ia32_sysenter_esp.set_encoding(GUEST_STATE_IA32_SYSENTER_ESP);
        self.ia32_sysenter_eip.set_encoding(GUEST_STATE_IA32_SYSENTER_EIP);
        self.ia32_perf.set_encoding(GUEST_STATE_IA32_PERF_GLOBAL);
        self.ia32_pat.set_encoding(GUEST_STATE_IA32_PAT);
        self.ia32_efer.set_encoding(GUEST_STATE_IA32_EFER);
        self.ia32_bndcfg.set_encoding(GUEST_STATE_IA32_BNDCFG);
        self.smbase.set_encoding(GUEST_STATE_SMBASE);
        self.activity.set_encoding(GUEST_STATE_ACTIVITY_STATE);
        self.interrupt.set_encoding(GUEST_STATE_INT_STATE);
        self.pending_dbg.set_encoding(GUEST_STATE_PENDING_DBG_EXCP);
        self.vmcs_link_ptr.set_encoding(GUEST_STATE_VMCS_LINK_PTR);
        self.preempt_timer.set_encoding(GUEST_STATE_PREEMPT_TIMER);
        self.pdpe_0.set_encoding(GUEST_STATE_PDPTE0);
        self.pdpe_1.set_encoding(GUEST_STATE_PDPTE1);
        self.pdpe_2.set_encoding(GUEST_STATE_PDPTE2);
        self.pdpe_3.set_encoding(GUEST_STATE_PDPTE3);
        self.guest_intr.set_encoding(GUEST_STATE_INTR);
        self.pml_index.set_encoding(GUEST_STATE_PML_IDX);
    }

    #[verifier::rlimit(100)]
    #[verifier::spinoff_prover]
    /// Flush every guest field: CR0 and CR4 fixed-bit masked, the PAT, EFER and PERF words only when the entry controls load them, the preemption timer only when the platform offers one, and CR2 and DR6 through their registers.
    pub fn commit(&mut self, hw: &mut Region, fixed: &FixedRegisters, entry_ctls: u64, pin_allow1: u64) -> (r: Result<(), VmmError>)
        requires
            old(self).encoded(),
        ensures
            r is Ok,
            final(self).encoded(),
            final(hw).revision_id == old(hw).revision_id,
            final(self).cr0.fixed == fixed.cr0,
            final(self).cr0.value == crate::regs::spec_mask(fixed.cr0, old(self).cr0.value),
            final(hw).spec_field(GUEST_STATE_CR0 as u64) == Some(crate::regs::spec_mask(fixed.cr0, old(self).cr0.value)),
            final(self).cr4.fixed == fixed.cr4,
            final(self).cr4.value == crate::regs::spec_mask(fixed.cr4, old(self).cr4.value),
            final(hw).spec_field(GUEST_STATE_CR4 as u64) == Some(crate::regs::spec_mask(fixed.cr4, old(self).cr4.value)),
            final(hw).spec_field(GUEST_STATE_ES_SEL as u64) == Some(old(self).es_sel.value),
            final(hw).spec_field(GUEST_STATE_CS_SEL as u64) == Some(old(self).cs_sel.value),
            final(hw).spec_field(GUEST_STATE_SS_SEL as u64) == Some(old(self).ss_sel.value),
            final(hw).spec_field(GUEST_STATE_DS_SEL as u64) == Some(old(self).ds_sel.value),
            final(hw).spec_field(GUEST_STATE_FS_SEL as u64) == Some(old(self).fs_sel.value),
            final(hw).spec_field(GUEST_STATE_GS_SEL as u64) == Some(old(self).gs_sel.value),
            final(hw).spec_field(GUEST_STATE_LDTR_SEL as u64) == Some(old(self).ldtr_sel.value),
            final(hw).spec_field(GUEST_STATE_TR_SEL as u64) == Some(old(self).tr_sel.value),
            final(hw).spec_field(GUEST_STATE_VMCS_LINK_PTR as u64) == Some(old(self).vmcs_link_ptr.value),
            entry_ctls & crate::regs::ENTRY_LOAD_PAT != 0 ==> final(hw).spec_field(GUEST_STATE_IA32_PAT as u64) == Some(old(self).ia32_pat.value),
            !(entry_ctls & crate::regs::ENTRY_LOAD_PAT != 0) ==> final(hw).spec_field(GUEST_STATE_IA32_PAT as u64) == old(hw).spec_field(GUEST_STATE_IA32_PAT as u64),
            entry_ctls & crate::regs::ENTRY_LOAD_EFER != 0 ==> final(hw).spec_field(GUEST_STATE_IA32_EFER as u64) == Some(old(self).ia32_efer.value),
            !(entry_ctls & crate::regs::ENTRY_LOAD_EFER != 0) ==> final(hw).spec_field(GUEST_STATE_IA32_EFER as u64) == old(hw).spec_field(GUEST_STATE_IA32_EFER as u64),
            entry_ctls & crate::regs::ENTRY_LOAD_PERF != 0 ==> final(hw).spec_field(GUEST_STATE_IA32_PERF_GLOBAL as u64) == Some(old(self).ia32_perf.value),
            !(entry_ctls & crate::regs::ENTRY_LOAD_PERF != 0) ==> final(hw).spec_field(GUEST_STATE_IA32_PERF_GLOBAL as u64) == old(hw).spec_field(GUEST_STATE_IA32_PERF_GLOBAL as u64),
            final(hw).spec_field(GUEST_STATE_PDPTE0 as u64) == Some(old(self).pdpe_0.value),
            final(hw).spec_field(GUEST_STATE_PDPTE1 as u64) == Some(old(self).pdpe_1.value),
            final(hw).spec_field(GUEST_STATE_PDPTE2 as u64) == Some(old(self).pdpe_2.value),
            final(hw).spec_field(GUEST_STATE_PDPTE3 as u64) == Some(old(self).pdpe_3.value),
            final(hw).spec_field(GUEST_STATE_ES_LIMIT as u64) == Some(old(self).es_limit.value),
            final(hw).spec_field(GUEST_STATE_CS_LIMIT as u64) == Some(old(self).cs_limit.value),
            final(hw).spec_field(GUEST_STATE_SS_LIMIT as u64) == Some(old(self).ss_limit.value),
            final(hw).spec_field(GUEST_STATE_DS_LIMIT as u64) == Some(old(self).ds_limit.value),
            final(hw).spec_field(GUEST_STATE_FS_LIMIT as u64) == Some(old(self).fs_limit.value),
            final(hw).spec_field(GUEST_STATE_GS_LIMIT as u64) == Some(old(self).gs_limit.value),
            final(hw).spec_field(GUEST_STATE_LDTR_LIMIT as u64) == Some(old(self).ldtr_limit.value),
            final(hw).spec_field(GUEST_STATE_TR_LIMIT as u64) == Some(old(self).tr_limit.value),
            final(hw).spec_field(GUEST_STATE_GDTR_LIMIT as u64) == Some(old(self).gdtr_limit.value),
            final(hw).spec_field(GUEST_STATE_IDTR_LIMIT as u64) == Some(old(self).idtr_limit.value),
            final(hw).spec_field(GUEST_STATE_ES_ACCESS_RIGHTS as u64) == Some(old(self).es_attr.value),
            final(hw).spec_field(GUEST_STATE_CS_ACCESS_RIGHTS as u64) == Some(old(self).cs_attr.value),
            final(hw).spec_field(GUEST_STATE_SS_ACCESS_RIGHTS as u64) == Some(old(self).ss_attr.value),
            final(hw).spec_field(GUEST_STATE_DS_ACCESS_RIGHTS as u64) == Some(old(self).ds_attr.value),
            final(hw).spec_field(GUEST_STATE_FS_ACCESS_RIGHTS as u64) == Some(old(self).fs_attr.value),
            final(hw).spec_field(GUEST_STATE_GS_ACCESS_RIGHTS as u64) == Some(old(self).gs_attr.value),
            final(hw).spec_field(GUEST_STATE_LDTR_ACCESS_RIGHTS as u64) == Some(old(self).ldtr_attr.value),
            final(hw).spec_field(GUEST_STATE_TR_ACCESS_RIGHTS as u64) == Some(old(self).tr_attr.value),
            final(hw).spec_field(GUEST_STATE_INT_STATE as u64) == Some(old(self).interrupt.value),
            final(hw).spec_field(GUEST_STATE_ACTIVITY_STATE as u64) == Some(old(self).activity.value),
            final(hw).spec_field(GUEST_STATE_SMBASE as u64) == Some(old(self).smbase.value),
            final(hw).spec_field(GUEST_STATE_IA32_SYSENTER_CS as u64) == Some(old(self).ia32_sysenter_cs.value),
            pin_allow1 & crate::regs::PIN_PREEMPT != 0 ==> final(hw).spec_field(GUEST_STATE_PREEMPT_TIMER as u64) == Some(old(self).preempt_timer.value),
            !(pin_allow1 & crate::regs::PIN_PREEMPT != 0) ==> final(hw).spec_field(GUEST_STATE_PREEMPT_TIMER as u64) == old(hw).spec_field(GUEST_STATE_PREEMPT_TIMER as u64),
            final(hw).spec_field(GUEST_STATE_CR3 as u64) == Some(old(self).cr3.value),
            final(hw).spec_field(GUEST_STATE_ES_BASE as u64) == Some(old(self).es_base.value),
            final(hw).spec_field(GUEST_STATE_CS_BASE as u64) == Some(old(self).cs_base.value),
            final(hw).spec_field(GUEST_STATE_SS_BASE as u64) == Some(old(self).ss_base.value),
            final(hw).spec_field(GUEST_STATE_DS_BASE as u64) == Some(old(self).ds_base.value),
            final(hw).spec_field(GUEST_STATE_FS_BASE as u64) == Some(old(self).fs_base.value),
            final(hw).spec_field(GUEST_STATE_GS_BASE as u64) == Some(old(self).gs_base.value),
            final(hw).spec_field(GUEST_STATE_TR_BASE as u64) == Some(old(self).tr_base.value),
            final(hw).spec_field(GUEST_STATE_LDTR_BASE as u64) == Some(old(self).ldtr_base.value),
            final(hw).spec_field(GUEST_STATE_GDTR_BASE as u64) == Some(old(self).gdtr_base.value),
            final(hw).spec_field(GUEST_STATE_IDTR_BASE as u64) == Some(old(self).idtr_base.value),
            final(hw).spec_field(GUEST_STATE_DR7 as u64) == Some(old(self).dr7.value),
            final(hw).spec_field(GUEST_STATE_RSP as u64) == Some(old(self).rsp.value),
            final(hw).spec_field(GUEST_STATE_RIP as u64) == Some(old(self).rip.value),
            final(hw).spec_field(GUEST_STATE_RFLAGS as u64) == Some(old(self).rflags.value),
            final(hw).spec_field(GUEST_STATE_PENDING_DBG_EXCP as u64) == Some(old(self).pending_dbg.value),
            final(hw).spec_field(GUEST_STATE_IA32_SYSENTER_ESP as u64) == Some(old(self).ia32_sysenter_esp.value),
            final(hw).spec_field(GUEST_STATE_IA32_SYSENTER_EIP as u64) == Some(old(self).ia32_sysenter_eip.value),
            final(hw).cr2 == final(self).cr2.value,
            final(hw).dr6 == final(self).dr6.value,
            final(self).cr2 == old(self).cr2,
            final(self).dr6 == old(self).dr6,
            forall|k: u64| !spec_guest_key(k) ==> (#[trigger] final(hw).spec_field(k)) == old(hw).spec_field(k),
            final(self).cr3 == old(self).cr3,
            final(self).dr7 == old(self).dr7,
            final(self).rsp == old(self).rsp,
            final(self).rip == old(self).rip,
            final(self).rflags == old(self).rflags,
            final(self).es_sel == old(self).es_sel,
            final(self).es_base == old(self).es_base,
            final(self).es_limit == old(self).es_limit,
            final(self).es_attr == old(self).es_attr,
            final(self).cs_sel == old(self).cs_sel,
            final(self).cs_base == old(self).cs_base,
            final(self).cs_limit == old(self).cs_limit,
            final(self).cs_attr == old(self).cs_attr,
            final(self).ss_sel == old(self).ss_sel,
            final(self).ss_base == old(self).ss_base,
            final(self).ss_limit == old(self).ss_limit,
            final(self).ss_attr == old(self).ss_attr,
            final(self).ds_sel == old(self).ds_sel,
            final(self).ds_base == old(self).ds_base,
            final(self).ds_limit == old(self).ds_limit,
            final(self).ds_attr == old(self).ds_attr,
            final(self).fs_sel == old(self).fs_sel,
            final(self).fs_base == old(self).fs_base,
            final(self).fs_limit == old(self).fs_limit,
            final(self).fs_attr == old(self).fs_attr,
            final(self).gs_sel == old(self).gs_sel,
            final(self).gs_base == old(self).gs_base,
            final(self).gs_limit == old(self).gs_limit,
            final(self).gs_attr == old(self).gs_attr,
            final(self).ldtr_sel == old(self).ldtr_sel,
            final(self).ldtr_base == old(self).ldtr_base,
            final(self).ldtr_limit == old(self).ldtr_limit,
            final(self).ldtr_attr == old(self).ldtr_attr,
            final(self).tr_sel == old(self).tr_sel,
            final(self).tr_base == old(self).tr_base,
            final(self).tr_limit == old(self).tr_limit,
            final(self).tr_attr == old(self).tr_attr,
            final(self).gdtr_base == old(self).gdtr_base,
            final(self).gdtr_limit == old(self).gdtr_limit,
            final(self).idtr_base == old(self).idtr_base,
            final(self).idtr_limit == old(self).idtr_limit,
            final(self).ia32_dbgctl == old(self).ia32_dbgctl,
            final(self).ia32_sysenter_cs == old(self).ia32_sysenter_cs,
            final(self).ia32_sysenter_esp == old(self).ia32_sysenter_esp,
            final(self).ia32_sysenter_eip == old(self).ia32_sysenter_eip,
            final(self).ia32_perf == old(self).ia32_perf,
            final(self).ia32_pat == old(self).ia32_pat,
            final(self).ia32_efer == old(self).ia32_efer,
            final(self).ia32_bndcfg == old(self).ia32_bndcfg,
            final(self).smbase == old(self).smbase,
            final(self).activity == old(self).activity,
            final(self).interrupt == old(self).interrupt,
            final(self).pending_dbg == old(self).pending_dbg,
            final(self).vmcs_link_ptr == old(self).vmcs_link_ptr,
            final(self).preempt_timer == old(self).preempt_timer,
            final(self).pdpe_0 == old(self).pdpe_0,
            final(self).pdpe_1 == old(self).pdpe_1,
            final(self).pdpe_2 == old(self).pdpe_2,
            final(self).pdpe_3 == old(self).pdpe_3,
            final(self).guest_intr == old(self).guest_intr,
            final(self).pml_index == old(self).pml_index,
    {
        self.cr0.set_fixed(fixed.cr0);
        proof {
            crate::regs::lemma_mask_idempotent(fixed.cr0, old(self).cr0.value);
        }
        self.cr0.force_flush(hw)?;
        self.cr4.set_fixed(fixed.cr4);
        proof {
            crate::regs::lemma_mask_idempotent(fixed.cr4, old(self).cr4.value);
        }
        self.cr4.force_flush(hw)?;
        self.es_sel.force_flush(hw)?;
        self.cs_sel.force_flush(hw)?;
        self.ss_sel.force_flush(hw)?;
        self.ds_sel.force_flush(hw)?;
        self.fs_sel.force_flush(hw)?;
        self.gs_sel.force_flush(hw)?;
        self.ldtr_sel.force_flush(hw)?;
        self.tr_sel.force_flush(hw)?;
        self.vmcs_link_ptr.force_flush(hw)?;
        if entry_ctls & crate::regs::ENTRY_LOAD_PAT != 0 {
            self.ia32_pat.force_flush(hw)?;
        }
        if entry_ctls & crate::regs::ENTRY_LOAD_EFER != 0 {
            self.ia32_efer.force_flush(hw)?;
        }
        if entry_ctls & crate::regs::ENTRY_LOAD_PERF != 0 {
            self.ia32_perf.force_flush(hw)?;
        }
        self.pdpe_0.force_flush(hw)?;
        self.pdpe_1.force_flush(hw)?;
        self.pdpe_2.force_flush(hw)?;
        self.pdpe_3.force_flush(hw)?;
        self.es_limit.force_flush(hw)?;
        self.cs_limit.force_flush(hw)?;
        self.ss_limit.force_flush(hw)?;
        self.ds_limit.force_flush(hw)?;
        self.fs_limit.force_flush(hw)?;
        self.gs_limit.force_flush(hw)?;
        self.ldtr_limit.force_flush(hw)?;
        self.tr_limit.force_flush(hw)?;
        self.gdtr_limit.force_flush(hw)?;
        self.idtr_limit.force_flush(hw)?;
        self.es_attr.force_flush(hw)?;
        self.cs_attr.force_flush(hw)?;
        self.ss_attr.force_flush(hw)?;
        self.ds_attr.force_flush(hw)?;
        self.fs_attr.force_flush(hw)?;
        self.gs_attr.force_flush(hw)?;
        self.ldtr_attr.force_flush(hw)?;
        self.tr_attr.force_flush(hw)?;
        self.interrupt.force_flush(hw)?;
        self.activity.force_flush(hw)?;
        self.smbase.force_flush(hw)?;
        self.ia32_sysenter_cs.force_flush(hw)?;
        if pin_allow1 & crate::regs::PIN_PREEMPT != 0 {
            self.preempt_timer.force_flush(hw)?;
        }
        self.cr3.force_flush(hw)?;
        self.es_base.force_flush(hw)?;
        self.cs_base.force_flush(hw)?;
        self.ss_base.force_flush(hw)?;
        self.ds_base.force_flush(hw)?;
        self.fs_base.force_flush(hw)?;
        self.gs_base.force_flush(hw)?;
        self.tr_base.force_flush(hw)?;
        self.ldtr_base.force_flush(hw)?;
        self.gdtr_base.force_flush(hw)?;
        self.idtr_base.force_flush(hw)?;
        self.dr7.force_flush(hw)?;
        self.rsp.force_flush(hw)?;
        self.rip.force_flush(hw)?;
        self.rflags.force_flush(hw)?;
        self.pending_dbg.force_flush(hw)?;
        self.ia32_sysenter_esp.force_flush(hw)?;
        self.ia32_sysenter_eip.force_flush(hw)?;
        self.cr2.force_flush(hw)?;
        self.dr6.force_flush(hw)?;
        Ok(())
    }
}

impl ExecCtl {
    /// Every field carries its Intel encoding, mirror marks clear.
    pub open spec fn encoded(&self) -> bool {
        &&& self.pin.encoding.0 == EXEC_CTRL_PINBASED
        &&& self.proc1.encoding.0 == EXEC_CTRL_PROCBASED_1
        &&& self.proc2.encoding.0 == EXEC_CTRL_PROCBASED_2
        &&& self.excp_bitmap.encoding.0 == EXEC_CTRL_EXCP_BITMAP
        &&& self.pf_err_msk.encoding.0 == EXEC_CTRL_PF_ERR_MASK
        &&& self.pf_err_mch.encoding.0 == EXEC_CTRL_PF_ERR_MATCH
        &&& self.ioA_bitmap.encoding.0 == EXEC_CTRL_ADDR_IO_MAP_A
        &&& self.ioB_bitmap.encoding.0 == EXEC_CTRL_ADDR_IO_MAP_B
        &&& self.tsc_offset.encoding.0 == EXEC_CTRL_TSC_OFFSET
        &&& self.cr0_mask.encoding.0 == EXEC_CTRL_CR0_GUEST_HOST_MASK
        &&& self.cr4_mask.encoding.0 == EXEC_CTRL_CR4_GUEST_HOST_MASK
        &&& self.cr0_read_shadow.encoding.0 == EXEC_CTRL_CR0_READ_SHADOW
        &&& self.cr4_read_shadow.encoding.0 == EXEC_CTRL_CR4_READ_SHADOW
        &&& self.cr3_target_0.encoding.0 == EXEC_CTRL_CR3_TARGET_0
        &&& self.cr3_target_1.encoding.0 == EXEC_CTRL_CR3_TARGET_1
        &&& self.cr3_target_2.encoding.0 == EXEC_CTRL_CR3_TARGET_2
        &&& self.cr3_target_3.encoding.0 == EXEC_CTRL_CR3_TARGET_3
        &&& self.cr3_target_cnt.encoding.0 == EXEC_CTRL_CR3_TARGET_COUNT
        &&& self.apic_addr.encoding.0 == EXEC_CTRL_APIC_PAGE_ADDR
        &&& self.vapic_addr.encoding.0 == EXEC_CTRL_VAPIC_PAGE_ADDR
        &&& self.tpr_threshold.encoding.0 == EXEC_CTRL_TPR_THRESHOLD
        &&& self.msr_bitmap.encoding.0 == EXEC_CTRL_ADDR_MSR_MAP
        &&& self.executive_vmcs_ptr.encoding.0 == EXEC_CTRL_VMCS_PTR
        &&& self.eptp.encoding.0 == EXEC_CTRL_EPTP
        &&& self.vpid.encoding.0 == EXEC_CTRL_VPID
        &&& self.ple_gap.encoding.0 == EXEC_CTRL_PLE_GAP
        &&& self.ple_win.encoding.0 == EXEC_CTRL_PLE_WIN
        &&& self.posted_int.encoding.0 == EXEC_CTRL_POSTED_INT
        &&& self.vm_func.encoding.0 == EXEC_CTRL_VM_FUNC
        &&& self.eptp_list.encoding.0 == EXEC_CTRL_EPTP_LIST
        &&& self.vmread_bitmap.encoding.0 == EXEC_CTRL_VMREAD_MAP
        &&& self.vmwrite_bitmap.encoding.0 == EXEC_CTRL_VMWRITE_MAP
        &&& self.encls_bitmap.encoding.0 == EXEC_CTRL_ENCLS_MAP
        &&& self.pml_addr.encoding.0 == EXEC_CTRL_PML_ADDR
        &&& self.vmx_excp_addr.encoding.0 == EXEC_CTRL_VMX_EXCP_ADDR
        &&& self.eptp_idx.encoding.0 == EXEC_CTRL_EPTP_IDX
        &&& self.xss_bitmap.encoding.0 == EXEC_CTRL_XSS_MAP
    }

    /// Assign every field its Intel encoding.
    pub fn encode(&mut self)
        ensures
            final(self).pin == (FixedField { encoding: Encoding(EXEC_CTRL_PINBASED), ..old(self).pin }),
            final(self).proc1 == (FixedField { encoding: Encoding(EXEC_CTRL_PROCBASED_1), ..old(self).proc1 }),
            final(self).proc2 == (FixedField { encoding: Encoding(EXEC_CTRL_PROCBASED_2), ..old(self).proc2 }),
            final(self).excp_bitmap == (Field { encoding: Encoding(EXEC_CTRL_EXCP_BITMAP), ..old(self).excp_bitmap }),
            final(self).pf_err_msk == (Field { encoding: Encoding(EXEC_CTRL_PF_ERR_MASK), ..old(self).pf_err_msk }),
            final(self).pf_err_mch == (Field { encoding: Encoding(EXEC_CTRL_PF_ERR_MATCH), ..old(self).pf_err_mch }),
            final(self).ioA_bitmap == (Field { encoding: Encoding(EXEC_CTRL_ADDR_IO_MAP_A), ..old(self).ioA_bitmap }),
            final(self).ioB_bitmap == (Field { encoding: Encoding(EXEC_CTRL_ADDR_IO_MAP_B), ..old(self).ioB_bitmap }),
            final(self).tsc_offset == (Field { encoding: Encoding(EXEC_CTRL_TSC_OFFSET), ..old(self).tsc_offset }),
            final(self).cr0_mask == (Field { encoding: Encoding(EXEC_CTRL_CR0_GUEST_HOST_MASK), ..old(self).cr0_mask }),
            final(self).cr4_mask == (Field { encoding: Encoding(EXEC_CTRL_CR4_GUEST_HOST_MASK), ..old(self).cr4_mask }),
            final(self).cr0_read_shadow == (Field { encoding: Encoding(EXEC_CTRL_CR0_READ_SHADOW), ..old(self).cr0_read_shadow }),
            final(self).cr4_read_shadow == (Field { encoding: Encoding(EXEC_CTRL_CR4_READ_SHADOW), ..old(self).cr4_read_shadow }),
            final(self).cr3_target_0 == (Field { encoding: Encoding(EXEC_CTRL_CR3_TARGET_0), ..old(self).cr3_target_0 }),
            final(self).cr3_target_1 == (Field { encoding: Encoding(EXEC_CTRL_CR3_TARGET_1), ..old(self).cr3_target_1 }),
            final(self).cr3_target_2 == (Field { encoding: Encoding(EXEC_CTRL_CR3_TARGET_2), ..old(self).cr3_target_2 }),
            final(self).cr3_target_3 == (Field { encoding: Encoding(EXEC_CTRL_CR3_TARGET_3), ..old(self).cr3_target_3 }),
            final(self).cr3_target_cnt == (Field { encoding: Encoding(EXEC_CTRL_CR3_TARGET_COUNT), ..old(self).cr3_target_cnt }),
            final(self).apic_addr == (Field { encoding: Encoding(EXEC_CTRL_APIC_PAGE_ADDR), ..old(self).apic_addr }),
            final(self).vapic_addr == (Field { encoding: Encoding(EXEC_CTRL_VAPIC_PAGE_ADDR), ..old(self).vapic_addr }),
            final(self).tpr_threshold == (Field { encoding: Encoding(EXEC_CTRL_TPR_THRESHOLD), ..old(self).tpr_threshold }),
            final(self).msr_bitmap == (Field { encoding: Encoding(EXEC_CTRL_ADDR_MSR_MAP), ..old(self).msr_bitmap }),
            final(self).executive_vmcs_ptr == (Field { encoding: Encoding(EXEC_CTRL_VMCS_PTR), ..old(self).executive_vmcs_ptr }),
            final(self).eptp == (Field { encoding: Encoding(EXEC_CTRL_EPTP), ..old(self).eptp }),
            final(self).vpid == (Field { encoding: Encoding(EXEC_CTRL_VPID), ..old(self).vpid }),
            final(self).ple_gap == (Field { encoding: Encoding(EXEC_CTRL_PLE_GAP), ..old(self).ple_gap }),
            final(self).ple_win == (Field { encoding: Encoding(EXEC_CTRL_PLE_WIN), ..old(self).ple_win }),
            final(self).posted_int == (Field { encoding: Encoding(EXEC_CTRL_POSTED_INT), ..old(self).posted_int }),
            final(self).vm_func == (Field { encoding: Encoding(EXEC_CTRL_VM_FUNC), ..old(self).vm_func }),
            final(self).eptp_list == (Field { encoding: Encoding(EXEC_CTRL_EPTP_LIST), ..old(self).eptp_list }),
            final(self).vmread_bitmap == (Field { encoding: Encoding(EXEC_CTRL_VMREAD_MAP), ..old(self).vmread_bitmap }),
            final(self).vmwrite_bitmap == (Field { encoding: Encoding(EXEC_CTRL_VMWRITE_MAP), ..old(self).vmwrite_bitmap }),
            final(self).encls_bitmap == (Field { encoding: Encoding(EXEC_CTRL_ENCLS_MAP), ..old(self).encls_bitmap }),
            final(self).pml_addr == (Field { encoding: Encoding(EXEC_CTRL_PML_ADDR), ..old(self).pml_addr }),
            final(self).vmx_excp_addr == (Field { encoding: Encoding(EXEC_CTRL_VMX_EXCP_ADDR), ..old(self).vmx_excp_addr }),
            final(self).eptp_idx == (Field { encoding: Encoding(EXEC_CTRL_EPTP_IDX), ..old(self).eptp_idx }),
            final(self).xss_bitmap == (Field { encoding: Encoding(EXEC_CTRL_XSS_MAP), ..old(self).xss_bitmap }),
    {
        self.pin.set_encoding(EXEC_CTRL_PINBASED);
        self.proc1.set_encoding(EXEC_CTRL_PROCBASED_1);
        self.proc2.set_encoding(EXEC_CTRL_PROCBASED_2);
        self.excp_bitmap.set_encoding(EXEC_CTRL_EXCP_BITMAP);
        self.pf_err_msk.set_encoding(EXEC_CTRL_PF_ERR_MASK);
        self.pf_err_mch.set_encoding(EXEC_CTRL_PF_ERR_MATCH);
        self.ioA_bitmap.set_encoding(EXEC_CTRL_ADDR_IO_MAP_A);
        self.ioB_bitmap.set_encoding(EXEC_CTRL_ADDR_IO_MAP_B);
        self.tsc_offset.set_encoding(EXEC_CTRL_TSC_OFFSET);
        self.cr0_mask.set_encoding(EXEC_CTRL_CR0_GUEST_HOST_MASK);
        self.cr4_mask.set_encoding(EXEC_CTRL_CR4_GUEST_HOST_MASK);
        self.cr0_read_shadow.set_encoding(EXEC_CTRL_CR0_READ_SHADOW);
        self.cr4_read_shadow.set_encoding(EXEC_CTRL_CR4_READ_SHADOW);
        self.cr3_target_0.set_encoding(EXEC_CTRL_CR3_TARGET_0);
        self.cr3_target_1.set_encoding(EXEC_CTRL_CR3_TARGET_1);
        self.cr3_target_2.set_encoding(EXEC_CTRL_CR3_TARGET_2);
        self.cr3_target_3.set_encoding(EXEC_CTRL_CR3_TARGET_3);
        self.cr3_target_cnt.set_encoding(EXEC_CTRL_CR3_TARGET_COUNT);
        self.apic_addr.set_encoding(EXEC_CTRL_APIC_PAGE_ADDR);
        self.vapic_addr.set_encoding(EXEC_CTRL_VAPIC_PAGE_ADDR);
        self.tpr_threshold.set_encoding(EXEC_CTRL_TPR_THRESHOLD);
        self.msr_bitmap.set_encoding(EXEC_CTRL_ADDR_MSR_MAP);
        self.executive_vmcs_ptr.set_encoding(EXEC_CTRL_VMCS_PTR);
        self.eptp.set_encoding(EXEC_CTRL_EPTP);
        self.vpid.set_encoding(EXEC_CTRL_VPID);
        self.ple_gap.set_encoding(EXEC_CTRL_PLE_GAP);
        self.ple_win.set_encoding(EXEC_CTRL_PLE_WIN);
        self.posted_int.set_encoding(EXEC_CTRL_POSTED_INT);
        self.vm_func.set_encoding(EXEC_CTRL_VM_FUNC);
        self.eptp_list.set_encoding(EXEC_CTRL_EPTP_LIST);
        self.vmread_bitmap.set_encoding(EXEC_CTRL_VMREAD_MAP);
        self.vmwrite_bitmap.set_encoding(EXEC_CTRL_VMWRITE_MAP);
        self.encls_bitmap.set_encoding(EXEC_CTRL_ENCLS_MAP);
        self.pml_addr.set_encoding(EXEC_CTRL_PML_ADDR);
        self.vmx_excp_addr.set_encoding(EXEC_CTRL_VMX_EXCP_ADDR);
        self.eptp_idx.set_encoding(EXEC_CTRL_EPTP_IDX);
        self.xss_bitmap.set_encoding(EXEC_CTRL_XSS_MAP);
    }

    #[verifier::rlimit(100)]
    #[verifier::spinoff_prover]
    /// Flush the execution controls, the three control words fixed-bit masked; the APIC addresses only where the platform can use them.
    pub fn commit(&mut self, hw: &mut Region, fixed: &FixedRegisters, proc1_allow1: u64, proc2_allow1: u64) -> (r: Result<(), VmmError>)
        requires
            old(self).encoded(),
        ensures
            r is Ok,
            final(self).encoded(),
            final(hw).revision_id == old(hw).revision_id,
            final(hw).cr2 == old(hw).cr2,
            final(hw).dr6 == old(hw).dr6,
            final(self).pin.fixed == fixed.pin,
            final(self).pin.value == crate::regs::spec_mask(fixed.pin, old(self).pin.value),
            final(hw).spec_field(EXEC_CTRL_PINBASED as u64) == Some(crate::regs::spec_mask(fixed.pin, old(self).pin.value)),
            final(self).proc1.fixed == fixed.proc1,
            final(self).proc1.value == crate::regs::spec_mask(fixed.proc1, old(self).proc1.value),
            final(hw).spec_field(EXEC_CTRL_PROCBASED_1 as u64) == Some(crate::regs::spec_mask(fixed.proc1, old(self).proc1.value)),
            final(self).proc2.fixed == fixed.proc2,
            final(self).proc2.value == crate::regs::spec_mask(fixed.proc2, old(self).proc2.value),
            final(hw).spec_field(EXEC_CTRL_PROCBASED_2 as u64) == Some(crate::regs::spec_mask(fixed.proc2, old(self).proc2.value)),
            final(hw).spec_field(EXEC_CTRL_VPID as u64) == Some(old(self).vpid.value),
            final(hw).spec_field(EXEC_CTRL_ADDR_IO_MAP_A as u64) == Some(old(self).ioA_bitmap.value),
            final(hw).spec_field(EXEC_CTRL_ADDR_IO_MAP_B as u64) == Some(old(self).ioB_bitmap.value),
            final(hw).spec_field(EXEC_CTRL_ADDR_MSR_MAP as u64) == Some(old(self).msr_bitmap.value),
            final(hw).spec_field(EXEC_CTRL_VMCS_PTR as u64) == Some(old(self).executive_vmcs_ptr.value),
            final(hw).spec_field(EXEC_CTRL_TSC_OFFSET as u64) == Some(old(self).tsc_offset.value),
            final(hw).spec_field(EXEC_CTRL_EPTP as u64) == Some(old(self).eptp.value),
            proc1_allow1 & crate::regs::PROC1_TPRS != 0 ==> final(hw).spec_field(EXEC_CTRL_VAPIC_PAGE_ADDR as u64) == Some(old(self).vapic_addr.value),
            !(proc1_allow1 & crate::regs::PROC1_TPRS != 0) ==> final(hw).spec_field(EXEC_CTRL_VAPIC_PAGE_ADDR as u64) == old(hw).spec_field(EXEC_CTRL_VAPIC_PAGE_ADDR as u64),
            proc2_allow1 & crate::regs::PROC2_VAPIC != 0 ==> final(hw).spec_field(EXEC_CTRL_APIC_PAGE_ADDR as u64) == Some(old(self).apic_addr.value),
            !(proc2_allow1 & crate::regs::PROC2_VAPIC != 0) ==> final(hw).spec_field(EXEC_CTRL_APIC_PAGE_ADDR as u64) == old(hw).spec_field(EXEC_CTRL_APIC_PAGE_ADDR as u64),
            final(hw).spec_field(EXEC_CTRL_EXCP_BITMAP as u64) == Some(old(self).excp_bitmap.value),
            final(hw).spec_field(EXEC_CTRL_PF_ERR_MASK as u64) == Some(old(self).pf_err_msk.value),
            final(hw).spec_field(EXEC_CTRL_PF_ERR_MATCH as u64) == Some(old(self).pf_err_mch.value),
            final(hw).spec_field(EXEC_CTRL_CR3_TARGET_COUNT as u64) == Some(old(self).cr3_target_cnt.value),
            final(hw).spec_field(EXEC_CTRL_TPR_THRESHOLD as u64) == Some(old(self).tpr_threshold.value),
            final(hw).spec_field(EXEC_CTRL_CR0_GUEST_HOST_MASK as u64) == Some(old(self).cr0_mask.value),
            final(hw).spec_field(EXEC_CTRL_CR4_GUEST_HOST_MASK as u64) == Some(old(self).cr4_mask.value),
            final(hw).spec_field(EXEC_CTRL_CR0_READ_SHADOW as u64) == Some(old(self).cr0_read_shadow.value),
            final(hw).spec_field(EXEC_CTRL_CR4_READ_SHADOW as u64) == Some(old(self).cr4_read_shadow.value),
            final(hw).spec_field(EXEC_CTRL_CR3_TARGET_0 as u64) == Some(old(self).cr3_target_0.value),
            final(hw).spec_field(EXEC_CTRL_CR3_TARGET_1 as u64) == Some(old(self).cr3_target_1.value),
            final(hw).spec_field(EXEC_CTRL_CR3_TARGET_2 as u64) == Some(old(self).cr3_target_2.value),
            final(hw).spec_field(EXEC_CTRL_CR3_TARGET_3 as u64) == Some(old(self).cr3_target_3.value),
            forall|k: u64| !spec_exec_key(k) ==> (#[trigger] final(hw).spec_field(k)) == old(hw).spec_field(k),
            final(self).excp_bitmap == old(self).excp_bitmap,
            final(self).pf_err_msk == old(self).pf_err_msk,
            final(self).pf_err_mch == old(self).pf_err_mch,
            final(self).ioA_bitmap == old(self).ioA_bitmap,
            final(self).ioB_bitmap == old(self).ioB_bitmap,
            final(self).tsc_offset == old(self).tsc_offset,
            final(self).cr0_mask == old(self).cr0_mask,
            final(self).cr4_mask == old(self).cr4_mask,
            final(self).cr0_read_shadow == old(self).cr0_read_shadow,
            final(self).cr4_read_shadow == old(self).cr4_read_shadow,
            final(self).cr3_target_0 == old(self).cr3_target_0,
            final(self).cr3_target_1 == old(self).cr3_target_1,
            final(self).cr3_target_2 == old(self).cr3_target_2,
            final(self).cr3_target_3 == old(self).cr3_target_3,
            final(self).cr3_target_cnt == old(self).cr3_target_cnt,
            final(self).apic_addr == old(self).apic_addr,
            final(self).vapic_addr == old(self).vapic_addr,
            final(self).tpr_threshold == old(self).tpr_threshold,
            final(self).msr_bitmap == old(self).msr_bitmap,
            final(self).executive_vmcs_ptr == old(self).executive_vmcs_ptr,
            final(self).eptp == old(self).eptp,
            final(self).vpid == old(self).vpid,
            final(self).ple_gap == old(self).ple_gap,
            final(self).ple_win == old(self).ple_win,
            final(self).posted_int == old(self).posted_int,
            final(self).vm_func == old(self).vm_func,
            final(self).eptp_list == old(self).eptp_list,
            final(self).vmread_bitmap == old(self).vmread_bitmap,
            final(self).vmwrite_bitmap == old(self).vmwrite_bitmap,
            final(self).encls_bitmap == old(self).encls_bitmap,
            final(self).pml_addr == old(self).pml_addr,
            final(self).vmx_excp_addr == old(self).vmx_excp_addr,
            final(self).eptp_idx == old(self).eptp_idx,
            final(self).xss_bitmap == old(self).xss_bitmap,
    {
        self.pin.set_fixed(fixed.pin);
        proof {
            crate::regs::lemma_mask_idempotent(fixed.pin, old(self).pin.value);
        }
        self.pin.force_flush(hw)?;
        self.proc1.set_fixed(fixed.proc1);
        proof {
            crate::regs::lemma_mask_idempotent(fixed.proc1, old(self).proc1.value);
        }
        self.proc1.force_flush(hw)?;
        self.proc2.set_fixed(fixed.proc2);
        proof {
            crate::regs::lemma_mask_idempotent(fixed.proc2, old(self).proc2.value);
        }
        self.proc2.force_flush(hw)?;
        self.vpid.force_flush(hw)?;
        self.ioA_bitmap.force_flush(hw)?;
        self.ioB_bitmap.force_flush(hw)?;
        self.msr_bitmap.force_flush(hw)?;
        self.executive_vmcs_ptr.force_flush(hw)?;
        self.tsc_offset.force_flush(hw)?;
        self.eptp.force_flush(hw)?;
        if proc1_allow1 & crate::regs::PROC1_TPRS != 0 {
            self.vapic_addr.force_flush(hw)?;
        }
        if proc2_allow1 & crate::regs::PROC2_VAPIC != 0 {
            self.apic_addr.force_flush(hw)?;
        }
        self.excp_bitmap.force_flush(hw)?;
        self.pf_err_msk.force_flush(hw)?;
        self.pf_err_mch.force_flush(hw)?;
        self.cr3_target_cnt.force_flush(hw)?;
        self.tpr_threshold.force_flush(hw)?;
        self.cr0_mask.force_flush(hw)?;
        self.cr4_mask.force_flush(hw)?;
        self.cr0_read_shadow.force_flush(hw)?;
        self.cr4_read_shadow.force_flush(hw)?;
        self.cr3_target_0.force_flush(hw)?;
        self.cr3_target_1.force_flush(hw)?;
        self.cr3_target_2.force_flush(hw)?;
        self.cr3_target_3.force_flush(hw)?;
        Ok(())
    }
}

impl ExitCtl {
    /// Every field carries its Intel encoding, mirror marks clear.
    pub open spec fn encoded(&self) -> bool {
        &&& self.exit.encoding.0 == EXIT_CTRLS
        &&& self.msr_store_cnt.encoding.0 == EXIT_CTRL_MSR_STORE_COUNT
        &&& self.msr_store_addr.encoding.0 == EXIT_CTRL_MSR_STORE_ADDR
        &&& self.msr_load_cnt.encoding.0 == EXIT_CTRL_MSR_LOAD_COUNT
        &&& self.msr_load_addr.encoding.0 == EXIT_CTRL_MSR_LOAD_ADDR
    }

    /// Assign every field its Intel encoding.
    pub fn encode(&mut self)
        ensures
            final(self).exit == (FixedField { encoding: Encoding(EXIT_CTRLS), ..old(self).exit }),
            final(self).msr_store_cnt == (Field { encoding: Encoding(EXIT_CTRL_MSR_STORE_COUNT), ..old(self).msr_store_cnt }),
            final(self).msr_store_addr == (Field { encoding: Encoding(EXIT_CTRL_MSR_STORE_ADDR), ..old(self).msr_store_addr }),
            final(self).msr_load_cnt == (Field { encoding: Encoding(EXIT_CTRL_MSR_LOAD_COUNT), ..old(self).msr_load_cnt }),
            final(self).msr_load_addr == (Field { encoding: Encoding(EXIT_CTRL_MSR_LOAD_ADDR), ..old(self).msr_load_addr }),
    {
        self.exit.set_encoding(EXIT_CTRLS);
        self.msr_store_cnt.set_encoding(EXIT_CTRL_MSR_STORE_COUNT);
        self.msr_store_addr.set_encoding(EXIT_CTRL_MSR_STORE_ADDR);
        self.msr_load_cnt.set_encoding(EXIT_CTRL_MSR_LOAD_COUNT);
        self.msr_load_addr.set_encoding(EXIT_CTRL_MSR_LOAD_ADDR);
    }

    /// Flush the exit controls, the control word fixed-bit masked.
    pub fn commit(&mut self, hw: &mut Region, fixed_exit: FixedReg) -> (r: Result<(), VmmError>)
        requires
            old(self).encoded(),
        ensures
            r is Ok,
            final(self).encoded(),
            final(hw).revision_id == old(hw).revision_id,
            final(hw).cr2 == old(hw).cr2,
            final(hw).dr6 == old(hw).dr6,
            final(hw).spec_field(EXIT_CTRL_MSR_STORE_ADDR as u64) == Some(old(self).msr_store_addr.value),
            final(hw).spec_field(EXIT_CTRL_MSR_LOAD_ADDR as u64) == Some(old(self).msr_load_addr.value),
            final(self).exit.fixed == fixed_exit,
            final(self).exit.value == crate::regs::spec_mask(fixed_exit, old(self).exit.value),
            final(hw).spec_field(EXIT_CTRLS as u64) == Some(crate::regs::spec_mask(fixed_exit, old(self).exit.value)),
            final(hw).spec_field(EXIT_CTRL_MSR_STORE_COUNT as u64) == Some(old(self).msr_store_cnt.value),
            final(hw).spec_field(EXIT_CTRL_MSR_LOAD_COUNT as u64) == Some(old(self).msr_load_cnt.value),
            forall|k: u64| !spec_exitctl_key(k) ==> (#[trigger] final(hw).spec_field(k)) == old(hw).spec_field(k),
            final(self).msr_store_cnt == old(self).msr_store_cnt,
            final(self).msr_store_addr == old(self).msr_store_addr,
            final(self).msr_load_cnt == old(self).msr_load_cnt,
            final(self).msr_load_addr == old(self).msr_load_addr,
    {
        self.msr_store_addr.force_flush(hw)?;
        self.msr_load_addr.force_flush(hw)?;
        self.exit.set_fixed(fixed_exit);
        proof {
            crate::regs::lemma_mask_idempotent(fixed_exit, old(self).exit.value);
        }
        self.exit.force_flush(hw)?;
        self.msr_store_cnt.force_flush(hw)?;
        self.msr_load_cnt.force_flush(hw)?;
        Ok(())
    }
}

impl EntryCtl {
    /// Every field carries its Intel encoding, mirror marks clear.
    pub open spec fn encoded(&self) -> bool {
        &&& self.entry.encoding.0 == ENTRY_CTRLS
        &&& self.msr_load_cnt.encoding.0 == ENTRY_CTRL_MSR_LOAD_COUNT
        &&& self.msr_load_addr.encoding.0 == ENTRY_CTRL_MSR_LOAD_ADDR
        &&& self.int_info.encoding.0 == ENTRY_CTRL_INT_INFO
        &&& self.int_err_code.encoding.0 == ENTRY_CTRL_EXCP_ERR_CODE
        &&& self.insn_len.encoding.0 == ENTRY_CTRL_INSN_LEN
    }

    /// Assign every field its Intel encoding.
    pub fn encode(&mut self)
        ensures
            final(self).entry == (FixedField { encoding: Encoding(ENTRY_CTRLS), ..old(self).entry }),
            final(self).msr_load_cnt == (Field { encoding: Encoding(ENTRY_CTRL_MSR_LOAD_COUNT), ..old(self).msr_load_cnt }),
            final(self).msr_load_addr == (Field { encoding: Encoding(ENTRY_CTRL_MSR_LOAD_ADDR), ..old(self).msr_load_addr }),
            final(self).int_info == (Field { encoding: Encoding(ENTRY_CTRL_INT_INFO), ..old(self).int_info }),
            final(self).int_err_code == (Field { encoding: Encoding(ENTRY_CTRL_EXCP_ERR_CODE), ..old(self).int_err_code }),
            final(self).insn_len == (Field { encoding: Encoding(ENTRY_CTRL_INSN_LEN), ..old(self).insn_len }),
    {
        self.entry.set_encoding(ENTRY_CTRLS);
        self.msr_load_cnt.set_encoding(ENTRY_CTRL_MSR_LOAD_COUNT);
        self.msr_load_addr.set_encoding(ENTRY_CTRL_MSR_LOAD_ADDR);
        self.int_info.set_encoding(ENTRY_CTRL_INT_INFO);
        self.int_err_code.set_encoding(ENTRY_CTRL_EXCP_ERR_CODE);
        self.insn_len.set_encoding(ENTRY_CTRL_INSN_LEN);
    }

    /// Flush the entry controls, the control word fixed-bit masked.
    pub fn commit(&mut self, hw: &mut Region, fixed_entry: FixedReg) -> (r: Result<(), VmmError>)
        requires
            old(self).encoded(),
        ensures
            r is Ok,
            final(self).encoded(),
            final(hw).revision_id == old(hw).revision_id,
            final(hw).cr2 == old(hw).cr2,
            final(hw).dr6 == old(hw).dr6,
            final(hw).spec_field(ENTRY_CTRL_MSR_LOAD_ADDR as u64) == Some(old(self).msr_load_addr.value),
            final(self).entry.fixed == fixed_entry,
            final(self).entry.value == crate::regs::spec_mask(fixed_entry, old(self).entry.value),
            final(hw).spec_field(ENTRY_CTRLS as u64) == Some(crate::regs::spec_mask(fixed_entry, old(self).entry.value)),
            final(hw).spec_field(ENTRY_CTRL_MSR_LOAD_COUNT as u64) == Some(old(self).msr_load_cnt.value),
            final(hw).spec_field(ENTRY_CTRL_INT_INFO as u64) == Some(old(self).int_info.value),
            final(hw).spec_field(ENTRY_CTRL_EXCP_ERR_CODE as u64) == Some(old(self).int_err_code.value),
            final(hw).spec_field(ENTRY_CTRL_INSN_LEN as u64) == Some(old(self).insn_len.value),
            forall|k: u64| !spec_entryctl_key(k) ==> (#[trigger] final(hw).spec_field(k)) == old(hw).spec_field(k),
            final(self).msr_load_cnt == old(self).msr_load_cnt,
            final(self).msr_load_addr == old(self).msr_load_addr,
            final(self).int_info == old(self).int_info,
            final(self).int_err_code == old(self).int_err_code,
            final(self).insn_len == old(self).insn_len,
    {
        self.msr_load_addr.force_flush(hw)?;
        self.entry.set_fixed(fixed_entry);
        proof {
            crate::regs::lemma_mask_idempotent(fixed_entry, old(self).entry.value);
        }
        self.entry.force_flush(hw)?;
        self.msr_load_cnt.force_flush(hw)?;
        self.int_info.force_flush(hw)?;
        self.int_err_code.force_flush(hw)?;
        self.insn_len.force_flush(hw)?;
        Ok(())
    }
}

impl Exit {
    /// Every field carries its Intel encoding, mirror marks clear.
    pub open spec fn encoded(&self) -> bool {
        &&& self.reason.encoding.0 == EXIT_INFO_REASON
        &&& self.qualification.encoding.0 == EXIT_INFO_QUALIFICATION
        &&& self.guest_linear.encoding.0 == EXIT_INFO_GUEST_LINEAR_ADDR
        &&& self.guest_physical.encoding.0 == EXIT_INFO_GUEST_PHYSICAL_ADDR
        &&& self.int_info.encoding.0 == EXIT_INFO_VMEXIT_INT_INFO
        &&& self.int_err_code.encoding.0 == EXIT_INFO_VMEXIT_INT_ERR
        &&& self.idt_info.encoding.0 == EXIT_INFO_IDT_VECT_INFO
        &&& self.idt_err_code.encoding.0 == EXIT_INFO_IDT_VECT_ERR
        &&& self.insn_len.encoding.0 == EXIT_INFO_VMEXIT_INSN_LEN
        &&& self.insn_info.encoding.0 == EXIT_INFO_VMEXIT_INSN_INFO
        &&& self.io_rcx.encoding.0 == EXIT_INFO_IO_RCX
        &&& self.io_rsi.encoding.0 == EXIT_INFO_IO_RSI
        &&& self.io_rdi.encoding.0 == EXIT_INFO_IO_RDI
        &&& self.io_rip.encoding.0 == EXIT_INFO_IO_RIP
        &&& self.vmx_insn_err.encoding.0 == EXIT_INFO_VM_INSN_ERROR
    }

    /// Assign every field its Intel encoding.
    pub fn encode(&mut self)
        ensures
            final(self).reason == (Field { encoding: Encoding(EXIT_INFO_REASON), ..old(self).reason }),
            final(self).qualification == (Field { encoding: Encoding(EXIT_INFO_QUALIFICATION), ..old(self).qualification }),
            final(self).guest_linear == (Field { encoding: Encoding(EXIT_INFO_GUEST_LINEAR_ADDR), ..old(self).guest_linear }),
            final(self).guest_physical == (Field { encoding: Encoding(EXIT_INFO_GUEST_PHYSICAL_ADDR), ..old(self).guest_physical }),
            final(self).int_info == (Field { encoding: Encoding(EXIT_INFO_VMEXIT_INT_INFO), ..old(self).int_info }),
            final(self).int_err_code == (Field { encoding: Encoding(EXIT_INFO_VMEXIT_INT_ERR), ..old(self).int_err_code }),
            final(self).idt_info == (Field { encoding: Encoding(EXIT_INFO_IDT_VECT_INFO), ..old(self).idt_info }),
            final(self).idt_err_code == (Field { encoding: Encoding(EXIT_INFO_IDT_VECT_ERR), ..old(self).idt_err_code }),
            final(self).insn_len == (Field { encoding: Encoding(EXIT_INFO_VMEXIT_INSN_LEN), ..old(self).insn_len }),
            final(self).insn_info == (Field { encoding: Encoding(EXIT_INFO_VMEXIT_INSN_INFO), ..old(self).insn_info }),
            final(self).io_rcx == (Field { encoding: Encoding(EXIT_INFO_IO_RCX), ..old(self).io_rcx }),
            final(self).io_rsi == (Field { encoding: Encoding(EXIT_INFO_IO_RSI), ..old(self).io_rsi }),
            final(self).io_rdi == (Field { encoding: Encoding(EXIT_INFO_IO_RDI), ..old(self).io_rdi }),
            final(self).io_rip == (Field { encoding: Encoding(EXIT_INFO_IO_RIP), ..old(self).io_rip }),
            final(self).vmx_insn_err == (Field { encoding: Encoding(EXIT_INFO_VM_INSN_ERROR), ..old(self).vmx_insn_err }),
    {
        self.reason.set_encoding(EXIT_INFO_REASON);
        self.qualification.set_encoding(EXIT_INFO_QUALIFICATION);
        self.guest_linear.set_encoding(EXIT_INFO_GUEST_LINEAR_ADDR);
        self.guest_physical.set_encoding(EXIT_INFO_GUEST_PHYSICAL_ADDR);
        self.int_info.set_encoding(EXIT_INFO_VMEXIT_INT_INFO);
        self.int_err_code.set_encoding(EXIT_INFO_VMEXIT_INT_ERR);
        self.idt_info.set_encoding(EXIT_INFO_IDT_VECT_INFO);
        self.idt_err_code.set_encoding(EXIT_INFO_IDT_VECT_ERR);
        self.insn_len.set_encoding(EXIT_INFO_VMEXIT_INSN_LEN);
        self.insn_info.set_encoding(EXIT_INFO_VMEXIT_INSN_INFO);
        self.io_rcx.set_encoding(EXIT_INFO_IO_RCX);
        self.io_rsi.set_encoding(EXIT_INFO_IO_RSI);
        self.io_rdi.set_encoding(EXIT_INFO_IO_RDI);
        self.io_rip.set_encoding(EXIT_INFO_IO_RIP);
        self.vmx_insn_err.set_encoding(EXIT_INFO_VM_INSN_ERROR);
    }

    /// Drop the cached read marks: these fields are read-only and the
    /// next exit delivers fresh values.
    pub fn clear(&mut self)
        ensures
            final(self).reason.value == old(self).reason.value,
            final(self).reason.encoding.0 == old(self).reason.encoding.0 & !0x8000u32 & !0x10000u32,
            final(self).qualification.value == old(self).qualification.value,
            final(self).qualification.encoding.0 == old(self).qualification.encoding.0 & !0x8000u32 & !0x10000u32,
            final(self).guest_linear.value == old(self).guest_linear.value,
            final(self).guest_linear.encoding.0 == old(self).guest_linear.encoding.0 & !0x8000u32 & !0x10000u32,
            final(self).guest_physical.value == old(self).guest_physical.value,
            final(self).guest_physical.encoding.0 == old(self).guest_physical.encoding.0 & !0x8000u32 & !0x10000u32,
            final(self).int_info.value == old(self).int_info.value,
            final(self).int_info.encoding.0 == old(self).int_info.encoding.0 & !0x8000u32 & !0x10000u32,
            final(self).int_err_code.value == old(self).int_err_code.value,
            final(self).int_err_code.encoding.0 == old(self).int_err_code.encoding.0 & !0x8000u32 & !0x10000u32,
            final(self).idt_info.value == old(self).idt_info.value,
            final(self).idt_info.encoding.0 == old(self).idt_info.encoding.0 & !0x8000u32 & !0x10000u32,
            final(self).idt_err_code.value == old(self).idt_err_code.value,
            final(self).idt_err_code.encoding.0 == old(self).idt_err_code.encoding.0 & !0x8000u32 & !0x10000u32,
            final(self).insn_len.value == old(self).insn_len.value,
            final(self).insn_len.encoding.0 == old(self).insn_len.encoding.0 & !0x8000u32 & !0x10000u32,
            final(self).insn_info.value == old(self).insn_info.value,
            final(self).insn_info.encoding.0 == old(self).insn_info.encoding.0 & !0x8000u32 & !0x10000u32,
            final(self).io_rcx.value == old(self).io_rcx.value,
            final(self).io_rcx.encoding.0 == old(self).io_rcx.encoding.0 & !0x8000u32 & !0x10000u32,
            final(self).io_rsi.value == old(self).io_rsi.value,
            final(self).io_rsi.encoding.0 == old(self).io_rsi.encoding.0 & !0x8000u32 & !0x10000u32,
            final(self).io_rdi.value == old(self).io_rdi.value,
            final(self).io_rdi.encoding.0 == old(self).io_rdi.encoding.0 & !0x8000u32 & !0x10000u32,
            final(self).io_rip.value == old(self).io_rip.value,
            final(self).io_rip.encoding.0 == old(self).io_rip.encoding.0 & !0x8000u32 & !0x10000u32,
            final(self).vmx_insn_err.value == old(self).vmx_insn_err.value,
            final(self).vmx_insn_err.encoding.0 == old(self).vmx_insn_err.encoding.0 & !0x8000u32 & !0x10000u32,
    {
        self.reason.clear();
        self.qualification.clear();
        self.guest_linear.clear();
        self.guest_physical.clear();
        self.int_info.clear();
        self.int_err_code.clear();
        self.idt_info.clear();
        self.idt_err_code.clear();
        self.insn_len.clear();
        self.insn_info.clear();
        self.io_rcx.clear();
        self.io_rsi.clear();
        self.io_rdi.clear();
        self.io_rip.clear();
        self.vmx_insn_err.clear();
    }
}

/// One key the mirror's commit may write.
pub open spec fn spec_mirror_key(k: u64) -> bool {
    ||| spec_host_key(k)
    ||| spec_guest_key(k)
    ||| spec_exec_key(k)
    ||| spec_exitctl_key(k)
    ||| spec_entryctl_key(k)
}

/// The hardware region holds the full commit image of the mirror `v`
/// under the fixed-bit settings: every plain field readable under its
/// encoding, every control field fixed-bit masked, the conditional MSR
/// words present exactly when their controls load them (with the
/// committed — masked — control words deciding), CR2 and DR6 in their
/// registers, and every encoding the mirror does not own untouched.
pub open spec fn spec_commit_image(v: VMCS, fixed: FixedRegisters, hw0: Region, hw: Region) -> bool {
    let exit_ctls = crate::regs::spec_mask(fixed.exit, v.ctrl.exit.exit.value);
    let entry_ctls = crate::regs::spec_mask(fixed.entry, v.ctrl.entry.entry.value);
    &&& hw.revision_id == hw0.revision_id
    &&& hw.cr2 == v.guest.cr2.value
    &&& hw.dr6 == v.guest.dr6.value
    &&& hw.spec_field(HOST_STATE_CR0 as u64) == Some(v.host.cr0.value)
    &&& hw.spec_field(HOST_STATE_CR3 as u64) == Some(v.host.cr3.value)
    &&& hw.spec_field(HOST_STATE_CR4 as u64) == Some(v.host.cr4.value)
    &&& hw.spec_field(HOST_STATE_RSP as u64) == Some(v.host.rsp.value)
    &&& hw.spec_field(HOST_STATE_RIP as u64) == Some(v.host.rip.value)
    &&& hw.spec_field(HOST_STATE_CS_SEL as u64) == Some(v.host.cs.value)
    &&& hw.spec_field(HOST_STATE_SS_SEL as u64) == Some(v.host.ss.value)
    &&& hw.spec_field(HOST_STATE_DS_SEL as u64) == Some(v.host.ds.value)
    &&& hw.spec_field(HOST_STATE_ES_SEL as u64) == Some(v.host.es.value)
    &&& hw.spec_field(HOST_STATE_FS_SEL as u64) == Some(v.host.fs.value)
    &&& hw.spec_field(HOST_STATE_GS_SEL as u64) == Some(v.host.gs.value)
    &&& hw.spec_field(HOST_STATE_TR_SEL as u64) == Some(v.host.tr.value)
    &&& hw.spec_field(HOST_STATE_FS_BASE as u64) == Some(v.host.fs_base.value)
    &&& hw.spec_field(HOST_STATE_GS_BASE as u64) == Some(v.host.gs_base.value)
    &&& hw.spec_field(HOST_STATE_TR_BASE as u64) == Some(v.host.tr_base.value)
    &&& hw.spec_field(HOST_STATE_GDTR_BASE as u64) == Some(v.host.gdtr_base.value)
    &&& hw.spec_field(HOST_STATE_IDTR_BASE as u64) == Some(v.host.idtr_base.value)
    &&& hw.spec_field(HOST_STATE_IA32_SYSENTER_CS as u64) == Some(v.host.ia32_sysenter_cs.value)
    &&& hw.spec_field(HOST_STATE_IA32_SYSENTER_ESP as u64) == Some(v.host.ia32_sysenter_esp.value)
    &&& hw.spec_field(HOST_STATE_IA32_SYSENTER_EIP as u64) == Some(v.host.ia32_sysenter_eip.value)
    &&& exit_ctls & crate::regs::EXIT_LOAD_PERF != 0 ==> hw.spec_field(HOST_STATE_IA32_PERF_GLOBAL as u64) == Some(v.host.ia32_perf.value)
    &&& !(exit_ctls & crate::regs::EXIT_LOAD_PERF != 0) ==> hw.spec_field(HOST_STATE_IA32_PERF_GLOBAL as u64) == hw0.spec_field(HOST_STATE_IA32_PERF_GLOBAL as u64)
    &&& exit_ctls & crate::regs::EXIT_LOAD_PAT != 0 ==> hw.spec_field(HOST_STATE_IA32_PAT as u64) == Some(v.host.ia32_pat.value)
    &&& !(exit_ctls & crate::regs::EXIT_LOAD_PAT != 0) ==> hw.spec_field(HOST_STATE_IA32_PAT as u64) == hw0.spec_field(HOST_STATE_IA32_PAT as u64)
    &&& exit_ctls & crate::regs::EXIT_LOAD_EFER != 0 ==> hw.spec_field(HOST_STATE_IA32_EFER as u64) == Some(v.host.ia32_efer.value)
    &&& !(exit_ctls & crate::regs::EXIT_LOAD_EFER != 0) ==> hw.spec_field(HOST_STATE_IA32_EFER as u64) == hw0.spec_field(HOST_STATE_IA32_EFER as u64)
    &&& hw.spec_field(GUEST_STATE_CR0 as u64) == Some(crate::regs::spec_mask(fixed.cr0, v.guest.cr0.value))
    &&& hw.spec_field(GUEST_STATE_CR3 as u64) == Some(v.guest.cr3.value)
    &&& hw.spec_field(GUEST_STATE_CR4 as u64) == Some(crate::regs::spec_mask(fixed.cr4, v.guest.cr4.value))
    &&& hw.spec_field(GUEST_STATE_DR7 as u64) == Some(v.guest.dr7.value)
    &&& hw.spec_field(GUEST_STATE_RSP as u64) == Some(v.guest.rsp.value)
    &&& hw.spec_field(GUEST_STATE_RIP as u64) == Some(v.guest.rip.value)
    &&& hw.spec_field(GUEST_STATE_RFLAGS as u64) == Some(v.guest.rflags.value)
    &&& hw.spec_field(GUEST_STATE_ES_SEL as u64) == Some(v.guest.es_sel.value)
    &&& hw.spec_field(GUEST_STATE_ES_BASE as u64) == Some(v.guest.es_base.value)
    &&& hw.spec_field(GUEST_STATE_ES_LIMIT as u64) == Some(v.guest.es_limit.value)
    &&& hw.spec_field(GUEST_STATE_ES_ACCESS_RIGHTS as u64) == Some(v.guest.es_attr.value)
    &&& hw.spec_field(GUEST_STATE_CS_SEL as u64) == Some(v.guest.cs_sel.value)
    &&& hw.spec_field(GUEST_STATE_CS_BASE as u64) == Some(v.guest.cs_base.value)
    &&& hw.spec_field(GUEST_STATE_CS_LIMIT as u64) == Some(v.guest.cs_limit.value)
    &&& hw.spec_field(GUEST_STATE_CS_ACCESS_RIGHTS as u64) == Some(v.guest.cs_attr.value)
    &&& hw.spec_field(GUEST_STATE_SS_SEL as u64) == Some(v.guest.ss_sel.value)
    &&& hw.spec_field(GUEST_STATE_SS_BASE as u64) == Some(v.guest.ss_base.value)
    &&& hw.spec_field(GUEST_STATE_SS_LIMIT as u64) == Some(v.guest.ss_limit.value)
    &&& hw.spec_field(GUEST_STATE_SS_ACCESS_RIGHTS as u64) == Some(v.guest.ss_attr.value)
    &&& hw.spec_field(GUEST_STATE_DS_SEL as u64) == Some(v.guest.ds_sel.value)
    &&& hw.spec_field(GUEST_STATE_DS_BASE as u64) == Some(v.guest.ds_base.value)
    &&& hw.spec_field(GUEST_STATE_DS_LIMIT as u64) == Some(v.guest.ds_limit.value)
    &&& hw.spec_field(GUEST_STATE_DS_ACCESS_RIGHTS as u64) == Some(v.guest.ds_attr.value)
    &&& hw.spec_field(GUEST_STATE_FS_SEL as u64) == Some(v.guest.fs_sel.value)
    &&& hw.spec_field(GUEST_STATE_FS_BASE as u64) == Some(v.guest.fs_base.value)
    &&& hw.spec_field(GUEST_STATE_FS_LIMIT as u64) == Some(v.guest.fs_limit.value)
    &&& hw.spec_field(GUEST_STATE_FS_ACCESS_RIGHTS as u64) == Some(v.guest.fs_attr.value)
    &&& hw.spec_field(GUEST_STATE_GS_SEL as u64) == Some(v.guest.gs_sel.value)
    &&& hw.spec_field(GUEST_STATE_GS_BASE as u64) == Some(v.guest.gs_base.value)
    &&& hw.spec_field(GUEST_STATE_GS_LIMIT as u64) == Some(v.guest.gs_limit.value)
    &&& hw.spec_field(GUEST_STATE_GS_ACCESS_RIGHTS as u64) == Some(v.guest.gs_attr.value)
    &&& hw.spec_field(GUEST_STATE_LDTR_SEL as u64) == Some(v.guest.ldtr_sel.value)
    &&& hw.spec_field(GUEST_STATE_LDTR_BASE as u64) == Some(v.guest.ldtr_base.value)
    &&& hw.spec_field(GUEST_STATE_LDTR_LIMIT as u64) == Some(v.guest.ldtr_limit.value)
    &&& hw.spec_field(GUEST_STATE_LDTR_ACCESS_RIGHTS as u64) == Some(v.guest.ldtr_attr.value)
    &&& hw.spec_field(GUEST_STATE_TR_SEL as u64) == Some(v.guest.tr_sel.value)
    &&& hw.spec_field(GUEST_STATE_TR_BASE as u64) == Some(v.guest.tr_base.value)
    &&& hw.spec_field(GUEST_STATE_TR_LIMIT as u64) == Some(v.guest.tr_limit.value)
    &&& hw.spec_field(GUEST_STATE_TR_ACCESS_RIGHTS as u64) == Some(v.guest.tr_attr.value)
    &&& hw.spec_field(GUEST_STATE_GDTR_BASE as u64) == Some(v.guest.gdtr_base.value)
    &&& hw.spec_field(GUEST_STATE_GDTR_LIMIT as u64) == Some(v.guest.gdtr_limit.value)
    &&& hw.spec_field(GUEST_STATE_IDTR_BASE as u64) == Some(v.guest.idtr_base.value)
    &&& hw.spec_field(GUEST_STATE_IDTR_LIMIT as u64) == Some(v.guest.idtr_limit.value)
    &&& hw.spec_field(GUEST_STATE_IA32_SYSENTER_CS as u64) == Some(v.guest.ia32_sysenter_cs.value)
    &&& hw.spec_field(GUEST_STATE_IA32_SYSENTER_ESP as u64) == Some(v.guest.ia32_sysenter_esp.value)
    &&& hw.spec_field(GUEST_STATE_IA32_SYSENTER_EIP as u64) == Some(v.guest.ia32_sysenter_eip.value)
    &&& entry_ctls & crate::regs::ENTRY_LOAD_PERF != 0 ==> hw.spec_field(GUEST_STATE_IA32_PERF_GLOBAL as u64) == Some(v.guest.ia32_perf.value)
    &&& !(entry_ctls & crate::regs::ENTRY_LOAD_PERF != 0) ==> hw.spec_field(GUEST_STATE_IA32_PERF_GLOBAL as u64) == hw0.spec_field(GUEST_STATE_IA32_PERF_GLOBAL as u64)
    &&& entry_ctls & crate::regs::ENTRY_LOAD_PAT != 0 ==> hw.spec_field(GUEST_STATE_IA32_PAT as u64) == Some(v.guest.ia32_pat.value)
    &&& !(entry_ctls & crate::regs::ENTRY_LOAD_PAT != 0) ==> hw.spec_field(GUEST_STATE_IA32_PAT as u64) == hw0.spec_field(GUEST_STATE_IA32_PAT as u64)
    &&& entry_ctls & crate::regs::ENTRY_LOAD_EFER != 0 ==> hw.spec_field(GUEST_STATE_IA32_EFER as u64) == Some(v.guest.ia32_efer.value)
    &&& !(entry_ctls & crate::regs::ENTRY_LOAD_EFER != 0) ==> hw.spec_field(GUEST_STATE_IA32_EFER as u64) == hw0.spec_field(GUEST_STATE_IA32_EFER as u64)
    &&& hw.spec_field(GUEST_STATE_SMBASE as u64) == Some(v.guest.smbase.value)
    &&& hw.spec_field(GUEST_STATE_ACTIVITY_STATE as u64) == Some(v.guest.activity.value)
    &&& hw.spec_field(GUEST_STATE_INT_STATE as u64) == Some(v.guest.interrupt.value)
    &&& hw.spec_field(GUEST_STATE_PENDING_DBG_EXCP as u64) == Some(v.guest.pending_dbg.value)
    &&& hw.spec_field(GUEST_STATE_VMCS_LINK_PTR as u64) == Some(v.guest.vmcs_link_ptr.value)
    &&& fixed.pin.allow_1 & crate::regs::PIN_PREEMPT != 0 ==> hw.spec_field(GUEST_STATE_PREEMPT_TIMER as u64) == Some(v.guest.preempt_timer.value)
    &&& !(fixed.pin.allow_1 & crate::regs::PIN_PREEMPT != 0) ==> hw.spec_field(GUEST_STATE_PREEMPT_TIMER as u64) == hw0.spec_field(GUEST_STATE_PREEMPT_TIMER as u64)
    &&& hw.spec_field(GUEST_STATE_PDPTE0 as u64) == Some(v.guest.pdpe_0.value)
    &&& hw.spec_field(GUEST_STATE_PDPTE1 as u64) == Some(v.guest.pdpe_1.value)
    &&& hw.spec_field(GUEST_STATE_PDPTE2 as u64) == Some(v.guest.pdpe_2.value)
    &&& hw.spec_field(GUEST_STATE_PDPTE3 as u64) == Some(v.guest.pdpe_3.value)
    &&& hw.spec_field(EXEC_CTRL_PINBASED as u64) == Some(crate::regs::spec_mask(fixed.pin, v.ctrl.execution.pin.value))
    &&& hw.spec_field(EXEC_CTRL_PROCBASED_1 as u64) == Some(crate::regs::spec_mask(fixed.proc1, v.ctrl.execution.proc1.value))
    &&& hw.spec_field(EXEC_CTRL_PROCBASED_2 as u64) == Some(crate::regs::spec_mask(fixed.proc2, v.ctrl.execution.proc2.value))
    &&& hw.spec_field(EXEC_CTRL_EXCP_BITMAP as u64) == Some(v.ctrl.execution.excp_bitmap.value)
    &&& hw.spec_field(EXEC_CTRL_PF_ERR_MASK as u64) == Some(v.ctrl.execution.pf_err_msk.value)
    &&& hw.spec_field(EXEC_CTRL_PF_ERR_MATCH as u64) == Some(v.ctrl.execution.pf_err_mch.value)
    &&& hw.spec_field(EXEC_CTRL_ADDR_IO_MAP_A as u64) == Some(v.ctrl.execution.ioA_bitmap.value)
    &&& hw.spec_field(EXEC_CTRL_ADDR_IO_MAP_B as u64) == Some(v.ctrl.execution.ioB_bitmap.value)
    &&& hw.spec_field(EXEC_CTRL_TSC_OFFSET as u64) == Some(v.ctrl.execution.tsc_offset.value)
    &&& hw.spec_field(EXEC_CTRL_CR0_GUEST_HOST_MASK as u64) == Some(v.ctrl.execution.cr0_mask.value)
    &&& hw.spec_field(EXEC_CTRL_CR4_GUEST_HOST_MASK as u64) == Some(v.ctrl.execution.cr4_mask.value)
    &&& hw.spec_field(EXEC_CTRL_CR0_READ_SHADOW as u64) == Some(v.ctrl.execution.cr0_read_shadow.value)
    &&& hw.spec_field(EXEC_CTRL_CR4_READ_SHADOW as u64) == Some(v.ctrl.execution.cr4_read_shadow.value)
    &&& hw.spec_field(EXEC_CTRL_CR3_TARGET_0 as u64) == Some(v.ctrl.execution.cr3_target_0.value)
    &&& hw.spec_field(EXEC_CTRL_CR3_TARGET_1 as u64) == Some(v.ctrl.execution.cr3_target_1.value)
    &&& hw.spec_field(EXEC_CTRL_CR3_TARGET_2 as u64) == Some(v.ctrl.execution.cr3_target_2.value)
    &&& hw.spec_field(EXEC_CTRL_CR3_TARGET_3 as u64) == Some(v.ctrl.execution.cr3_target_3.value)
    &&& hw.spec_field(EXEC_CTRL_CR3_TARGET_COUNT as u64) == Some(v.ctrl.execution.cr3_target_cnt.value)
    &&& fixed.proc2.allow_1 & crate::regs::PROC2_VAPIC != 0 ==> hw.spec_field(EXEC_CTRL_APIC_PAGE_ADDR as u64) == Some(v.ctrl.execution.apic_addr.value)
    &&& !(fixed.proc2.allow_1 & crate::regs::PROC2_VAPIC != 0) ==> hw.spec_field(EXEC_CTRL_APIC_PAGE_ADDR as u64) == hw0.spec_field(EXEC_CTRL_APIC_PAGE_ADDR as u64)
    &&& fixed.proc1.allow_1 & crate::regs::PROC1_TPRS != 0 ==> hw.spec_field(EXEC_CTRL_VAPIC_PAGE_ADDR as u64) == Some(v.ctrl.execution.vapic_addr.value)
    &&& !(fixed.proc1.allow_1 & crate::regs::PROC1_TPRS != 0) ==> hw.spec_field(EXEC_CTRL_VAPIC_PAGE_ADDR as u64) == hw0.spec_field(EXEC_CTRL_VAPIC_PAGE_ADDR as u64)
    &&& hw.spec_field(EXEC_CTRL_TPR_THRESHOLD as u64) == Some(v.ctrl.execution.tpr_threshold.value)
    &&& hw.spec_field(EXEC_CTRL_ADDR_MSR_MAP as u64) == Some(v.ctrl.execution.msr_bitmap.value)
    &&& hw.spec_field(EXEC_CTRL_VMCS_PTR as u64) == Some(v.ctrl.execution.executive_vmcs_ptr.value)
    &&& hw.spec_field(EXEC_CTRL_EPTP as u64) == Some(v.ctrl.execution.eptp.value)
    &&& hw.spec_field(EXEC_CTRL_VPID as u64) == Some(v.ctrl.execution.vpid.value)
    &&& hw.spec_field(EXIT_CTRLS as u64) == Some(crate::regs::spec_mask(fixed.exit, v.ctrl.exit.exit.value))
    &&& hw.spec_field(EXIT_CTRL_MSR_STORE_COUNT as u64) == Some(v.ctrl.exit.msr_store_cnt.value)
    &&& hw.spec_field(EXIT_CTRL_MSR_STORE_ADDR as u64) == Some(v.ctrl.exit.msr_store_addr.value)
    &&& hw.spec_field(EXIT_CTRL_MSR_LOAD_COUNT as u64) == Some(v.ctrl.exit.msr_load_cnt.value)
    &&& hw.spec_field(EXIT_CTRL_MSR_LOAD_ADDR as u64) == Some(v.ctrl.exit.msr_load_addr.value)
    &&& hw.spec_field(ENTRY_CTRLS as u64) == Some(crate::regs::spec_mask(fixed.entry, v.ctrl.entry.entry.value))
    &&& hw.spec_field(ENTRY_CTRL_MSR_LOAD_COUNT as u64) == Some(v.ctrl.entry.msr_load_cnt.value)
    &&& hw.spec_field(ENTRY_CTRL_MSR_LOAD_ADDR as u64) == Some(v.ctrl.entry.msr_load_addr.value)
    &&& hw.spec_field(ENTRY_CTRL_INT_INFO as u64) == Some(v.ctrl.entry.int_info.value)
    &&& hw.spec_field(ENTRY_CTRL_EXCP_ERR_CODE as u64) == Some(v.ctrl.entry.int_err_code.value)
    &&& hw.spec_field(ENTRY_CTRL_INSN_LEN as u64) == Some(v.ctrl.entry.insn_len.value)
    &&& forall|k: u64| !spec_mirror_key(k) ==> (#[trigger] hw.spec_field(k)) == hw0.spec_field(k)
}

/// The control field groups.
pub struct Ctl {
    pub execution: ExecCtl,
    pub exit: ExitCtl,
    pub entry: EntryCtl,
}

/// The whole VMCS mirror.
pub struct VMCS {
    pub revision_id: u32,
    pub abort: u32,
    pub guest: Guest,
    pub host: Host,
    pub ctrl: Ctl,
    pub exit: Exit,
}

impl Ctl {
    pub open spec fn encoded(&self) -> bool {
        self.execution.encoded() && self.exit.encoded() && self.entry.encoded()
    }

    /// Assign the control groups their encodings.
    pub fn encode(&mut self)
        ensures
            final(self).encoded(),
            final(self).entry.entry.value == old(self).entry.entry.value,
            final(self).exit.exit.value == old(self).exit.exit.value,
            final(self).execution.pin.value == old(self).execution.pin.value,
            final(self).execution.proc1.value == old(self).execution.proc1.value,
            final(self).execution.proc2.value == old(self).execution.proc2.value,
            final(self).execution.eptp.value == old(self).execution.eptp.value,
            final(self).execution.vpid.value == old(self).execution.vpid.value,
            final(self).execution.excp_bitmap.value == old(self).execution.excp_bitmap.value,
    {
        self.entry.encode();
        self.execution.encode();
        self.exit.encode();
    }
}

impl VMCS {
    pub open spec fn encoded(&self) -> bool {
        self.ctrl.encoded() && self.exit.encoded() && self.host.encoded() && self.guest.encoded()
    }

    /// Assign every mirror field its encoding.
    pub fn encode(&mut self)
        ensures
            final(self).encoded(),
            final(self).guest.rip.value == old(self).guest.rip.value,
            final(self).guest.rsp.value == old(self).guest.rsp.value,
            final(self).guest.ss_base.value == old(self).guest.ss_base.value,
            final(self).guest.cs_sel.value == old(self).guest.cs_sel.value,
            final(self).guest.cs_base.value == old(self).guest.cs_base.value,
            final(self).guest.rflags.value == old(self).guest.rflags.value,
            final(self).host.rsp.value == old(self).host.rsp.value,
            final(self).host.rip.value == old(self).host.rip.value,
            final(self).ctrl.entry.entry.value == old(self).ctrl.entry.entry.value,
            final(self).ctrl.exit.exit.value == old(self).ctrl.exit.exit.value,
            final(self).ctrl.execution.pin.value == old(self).ctrl.execution.pin.value,
            final(self).guest.ss_sel.value == old(self).guest.ss_sel.value,
            final(self).guest.activity.value == old(self).guest.activity.value,
            final(self).guest.vmcs_link_ptr.value == old(self).guest.vmcs_link_ptr.value,
            final(self).guest.idtr_limit.value == old(self).guest.idtr_limit.value,
            final(self).guest.cs_limit.value == old(self).guest.cs_limit.value,
            final(self).guest.cs_attr.value == old(self).guest.cs_attr.value,
            final(self).guest.ldtr_attr.value == old(self).guest.ldtr_attr.value,
            final(self).guest.ia32_pat.value == old(self).guest.ia32_pat.value,
            final(self).host.cr0.value == old(self).host.cr0.value,
            final(self).host.cr3.value == old(self).host.cr3.value,
            final(self).host.cr4.value == old(self).host.cr4.value,
            final(self).host.cs.value == old(self).host.cs.value,
            final(self).host.tr.value == old(self).host.tr.value,
            final(self).host.gdtr_base.value == old(self).host.gdtr_base.value,
            final(self).host.idtr_base.value == old(self).host.idtr_base.value,
            final(self).ctrl.execution.eptp.value == old(self).ctrl.execution.eptp.value,
            final(self).ctrl.execution.vpid.value == old(self).ctrl.execution.vpid.value,
            final(self).ctrl.execution.excp_bitmap.value == old(
                self,
            ).ctrl.execution.excp_bitmap.value,
    {
        self.ctrl.encode();
        self.exit.encode();
        self.host.encode();
        self.guest.encode();
    }

    #[verifier::rlimit(100)]
    #[verifier::spinoff_prover]
    /// Flush the whole mirror to the hardware region: controls, host
    /// state, then guest state.  Afterwards the region holds the full
    /// commit image: reading any committed field back yields the
    /// mirrored value modulo fixed-bit masking.
    pub fn commit(&mut self, hw: &mut Region, fixed: &FixedRegisters) -> (r: Result<
        (),
        VmmError,
    >)
        requires
            old(self).encoded(),
        ensures
            r is Ok,
            final(self).encoded(),
            spec_commit_image(*old(self), *fixed, *old(hw), *final(hw)),
            final(hw).revision_id == old(hw).revision_id,
            final(self).guest.rip == old(self).guest.rip,
            final(self).guest.rsp == old(self).guest.rsp,
            final(self).guest.ss_base == old(self).guest.ss_base,
            final(self).guest.cs_sel == old(self).guest.cs_sel,
            final(self).guest.cs_base == old(self).guest.cs_base,
            final(self).guest.rflags == old(self).guest.rflags,
    {
        self.ctrl.entry.commit(hw, fixed.entry)?;
        self.ctrl.execution.commit(hw, fixed, fixed.proc1.allow_1, fixed.proc2.allow_1)?;
        self.ctrl.exit.commit(hw, fixed.exit)?;
        let entry_ctls = self.ctrl.entry.entry.value;
        let exit_ctls = self.ctrl.exit.exit.value;
        self.host.commit(hw, exit_ctls)?;
        self.guest.commit(hw, fixed, entry_ctls, fixed.pin.allow_1)?;
        Ok(())
    }
}



/// A 4 KiB I/O or MSR permission bitmap.  For the MSR bitmap the page is
/// quartered: read bits for low MSRs, read bits for high MSRs
/// (`0xC0000000..`), then the same two quarters again for writes.
pub struct Bitmap {
    pub bytes: Vec<u8>,
}

/// Byte offset of the read-intercept bit of an MSR inside the bitmap,
/// when the MSR falls in a covered range.
pub open spec fn spec_msr_read_off(index: u32) -> Option<int> {
    if index < 0x2000 {
        Some(index as int / 8)
    } else if 0xc0000000 <= index < 0xc0002000 {
        Some(0x400 + (index - 0xc0000000) / 8)
    } else {
        None
    }
}

impl Bitmap {
    pub open spec fn wf(&self) -> bool {
        self.bytes@.len() == 4096
    }

    /// An all-zero (allow-everything) bitmap.
    pub fn new() -> (r: Bitmap)
        ensures
            r.wf(),
            forall|i: int| 0 <= i < 4096 ==> r.bytes@[i] == 0u8,
    {
        let mut bytes: Vec<u8> = Vec::new();
        let mut k: usize = 0;
        while k < 4096
            invariant
                k <= 4096,
                bytes@.len() == k,
                forall|i: int| 0 <= i < k ==> bytes@[i] == 0u8,
            decreases 4096 - k,
        {
            bytes.push(0);
            k = k + 1;
        }
        Bitmap { bytes }
    }

    /// Intercept the MSR: set its read and write bits.  An MSR outside
    /// the two covered ranges has no bit and nothing changes.
    pub fn deny(&mut self, index: u32)
        requires
            old(self).wf(),
        ensures
            final(self).wf(),
            match spec_msr_read_off(index) {
                Some(off) => {
                    let b = (1u8 << ((index % 8) as u8));
                    &&& final(self).bytes@[off] == old(self).bytes@[off] | b
                    &&& final(self).bytes@[off + 0x800] == old(self).bytes@[off + 0x800] | b
                    &&& forall|i: int|
                        0 <= i < 4096 && i != off && i != off + 0x800 ==> final(self).bytes@[i]
                            == old(self).bytes@[i]
                },
                None => final(self).bytes@ == old(self).bytes@,
            },
    {
        let off: usize;
        if index < 0x2000 {
            off = (index / 8) as usize;
        } else if 0xc0000000 <= index && index < 0xc0002000 {
            off = (0x400 + (index - 0xc0000000) / 8) as usize;
        } else {
            return ;
        }
        let b: u8 = 1u8 << ((index % 8) as u8);
        let v0 = self.bytes[off];
        self.bytes.set(off, v0 | b);
        let v1 = self.bytes[off + 0x800];
        self.bytes.set(off + 0x800, v1 | b);
    }

    /// Stop intercepting the MSR: clear its read and write bits.
    pub fn allow(&mut self, index: u32)
        requires
            old(self).wf(),
        ensures
            final(self).wf(),
            match spec_msr_read_off(index) {
                Some(off) => {
                    let b = (1u8 << ((index % 8) as u8));
                    &&& final(self).bytes@[off] == old(self).bytes@[off] & !b
                    &&& final(self).bytes@[off + 0x800] == old(self).bytes@[off + 0x800] & !b
                    &&& forall|i: int|
                        0 <= i < 4096 && i != off && i != off + 0x800 ==> final(self).bytes@[i]
                            == old(self).bytes@[i]
                },
                None => final(self).bytes@ == old(self).bytes@,
            },
    {
        let off: usize;
        if index < 0x2000 {
            off = (index / 8) as usize;
        } else if 0xc0000000 <= index && index < 0xc0002000 {
            off = (0x400 + (index - 0xc0000000) / 8) as usize;
        } else {
            return ;
        }
        let b: u8 = 1u8 << ((index % 8) as u8);
        let v0 = self.bytes[off];
        self.bytes.set(off, v0 & !b);
        let v1 = self.bytes[off + 0x800];
        self.bytes.set(off + 0x800, v1 & !b);
    }
}

/// One entry of a VM-exit / VM-entry MSR load or store area.
#[derive(Debug, Default, Copy, Clone, PartialEq, Eq, Structural)]
pub struct CtlMSRAreaEntry {
    pub index: u32,
    pub rsv: u32,
    pub data: u64,
}

/// An MSR load or store area of 512 entries.
pub struct CtlMSRArea {
    pub entries: Vec<CtlMSRAreaEntry>,
}

impl CtlMSRArea {
    pub open spec fn wf(&self) -> bool {
        self.entries@.len() == 512
    }

    pub fn new() -> (r: CtlMSRArea)
        ensures
            r.wf(),
    {
        let mut entries: Vec<CtlMSRAreaEntry> = Vec::new();
        let mut k: usize = 0;
        while k < 512
            invariant
                k <= 512,
                entries@.len() == k,
            decreases 512 - k,
        {
            entries.push(CtlMSRAreaEntry { index: 0, rsv: 0, data: 0 });
            k = k + 1;
        }
        CtlMSRArea { entries }
    }
}

/// Memory the CPU uses for the hypervisor's own VMCS.
pub struct VmmHardwareVMCS {
    pub region: Region,
}

/// Memory the CPU uses for the guest VMCS and its bitmaps and MSR areas.
pub struct VmHardwareVMCS {
    pub region: Region,
    pub ioA_map: Bitmap,
    pub ioB_map: Bitmap,
    pub msr_map: Bitmap,
    pub exit_store: CtlMSRArea,
    pub exit_load: CtlMSRArea,
    pub entry_load: CtlMSRArea,
}

/// Live host state fed into [`Host::init`]: control registers, MSR words
/// and the hypervisor's own stack, entry point and descriptor tables.
#[derive(Debug, Default, Copy, Clone, PartialEq, Eq, Structural)]
pub struct HostInit {
    pub cr0: u64,
    pub cr3: u64,
    pub cr4: u64,
    pub sysenter_cs: u64,
    pub sysenter_eip: u64,
    pub sysenter_esp: u64,
    pub perf: u64,
    pub pat: u64,
    pub efer: u64,
    pub stack: u64,
    pub entry: u64,
    pub gdtr_base: u64,
    pub idtr_base: u64,
}

/// Addresses and tags fed into [`ExecCtl::init`].
#[derive(Debug, Default, Copy, Clone, PartialEq, Eq, Structural)]
pub struct ExecInit {
    pub eptp_root: u64,
    pub asid: u16,
    pub ioA_addr: u64,
    pub ioB_addr: u64,
    pub msr_map_addr: u64,
}

impl Host {
    /// Populate the host fields from the live machine state.
    pub fn init(&mut self, inp: &HostInit)
        ensures
            final(self).cr0.value == inp.cr0,
            final(self).cr3.value == inp.cr3,
            final(self).cr4.value == inp.cr4,
            final(self).ia32_sysenter_cs.value == inp.sysenter_cs,
            final(self).ia32_sysenter_eip.value == inp.sysenter_eip,
            final(self).ia32_sysenter_esp.value == inp.sysenter_esp,
            final(self).ia32_perf.value == inp.perf,
            final(self).ia32_pat.value == inp.pat,
            final(self).ia32_efer.value == inp.efer,
            final(self).rsp.value == inp.stack,
            final(self).rip.value == inp.entry,
            final(self).cs.value == 8,
            final(self).ss.value == 16,
            final(self).ds.value == 16,
            final(self).es.value == 16,
            final(self).fs.value == 16,
            final(self).gs.value == 16,
            final(self).tr.value == 24,
            final(self).gdtr_base.value == inp.gdtr_base,
            final(self).idtr_base.value == inp.idtr_base,
    {
        self.cr0.set_field_value(inp.cr0);
        self.cr3.set_field_value(inp.cr3);
        self.cr4.set_field_value(inp.cr4);
        self.ia32_sysenter_cs.set_field_value(inp.sysenter_cs);
        self.ia32_sysenter_eip.set_field_value(inp.sysenter_eip);
        self.ia32_sysenter_esp.set_field_value(inp.sysenter_esp);
        self.ia32_perf.set_field_value(inp.perf);
        self.ia32_pat.set_field_value(inp.pat);
        self.ia32_efer.set_field_value(inp.efer);
        self.rsp.set_field_value(inp.stack);
        self.rip.set_field_value(inp.entry);
        let code = crate::segmentation::SegmentSelector::new_krn(
            crate::segmentation::VMM_GDT_CODE_IDX,
        );
        let data = crate::segmentation::SegmentSelector::new_krn(
            crate::segmentation::VMM_GDT_DATA_IDX,
        );
        let tss = crate::segmentation::SegmentSelector::new_krn(
            crate::segmentation::VMM_GDT_TSS_IDX,
        );
        self.cs.set_field_value(code.as_u16() as u64);
        self.ss.set_field_value(data.as_u16() as u64);
        self.ds.set_field_value(data.as_u16() as u64);
        self.es.set_field_value(data.as_u16() as u64);
        self.fs.set_field_value(data.as_u16() as u64);
        self.gs.set_field_value(data.as_u16() as u64);
        self.tr.set_field_value(tss.as_u16() as u64);
        self.gdtr_base.set_field_value(inp.gdtr_base);
        self.idtr_base.set_field_value(inp.idtr_base);
    }
}

impl Guest {
    /// Populate the guest fields for real-mode startup at the BIOS boot
    /// vector: 16-bit segments with 64 KiB limits, the stack just below
    /// the top of conventional memory, interrupts enabled.
    pub fn init(&mut self, pat: u64)
        ensures
            final(self).activity.value == 0,
            final(self).vmcs_link_ptr.value == u64::MAX,
            final(self).idtr_limit.value == 0x15 * 4 - 1,
            final(self).cs_sel.value == 0,
            final(self).cs_base.value == 0,
            final(self).ss_sel.value == crate::rmode::BASE_SS,
            final(self).ss_base.value == crate::rmode::BASE_SS * 16,
            final(self).cs_limit.value == 0xffff,
            final(self).ss_limit.value == 0xffff,
            final(self).ds_limit.value == 0xffff,
            final(self).es_limit.value == 0xffff,
            final(self).fs_limit.value == 0xffff,
            final(self).gs_limit.value == 0xffff,
            final(self).cs_attr.value == crate::regs::SEG_ATTR_CODE_16_R0_CO as u64,
            final(self).ss_attr.value == crate::regs::SEG_ATTR_DATA_16_R0 as u64,
            final(self).ds_attr.value == crate::regs::SEG_ATTR_DATA_16_R3 as u64,
            final(self).es_attr.value == crate::regs::SEG_ATTR_DATA_16_R3 as u64,
            final(self).fs_attr.value == crate::regs::SEG_ATTR_DATA_16_R3 as u64,
            final(self).gs_attr.value == crate::regs::SEG_ATTR_DATA_16_R3 as u64,
            final(self).tr_attr.value == crate::regs::SEG_ATTR_TSS_32 as u64,
            final(self).ldtr_attr.value == crate::regs::SEG_ATTR_UNUSABLE as u64,
            final(self).ia32_pat.value == pat,
            final(self).rflags.value == 0x202,
            final(self).rsp.value == crate::rmode::BASE_SP,
            final(self).rip.value == crate::rmode::BASE_IP,
    {
        proof {
            assert((0x9fbfeu64 & 0xffff0000) >> 4 == 0x9000 && 0x9fbfeu64 & 0xffff == 0xfbfe
                && 0x600u64 & 0xffff == 0x600 && 2u64 | 0x200 == 0x202) by (bit_vector);
        }
        self.activity.set_field_value(0);
        self.vmcs_link_ptr.set_field_value(u64::MAX);
        let limit = crate::rmode::ivt_limit(crate::rmode::BIOS_MISC_INTERRUPT) as u64;
        self.idtr_limit.set_field_value(limit);
        self.cs_sel.set_field_value(0);
        self.cs_base.set_field_value(0);
        self.ss_sel.set_field_value(crate::rmode::BASE_SS);
        self.ss_base.set_field_value(crate::rmode::BASE_SS * 16);
        self.cs_limit.set_field_value(0xffff);
        self.ss_limit.set_field_value(0xffff);
        self.ds_limit.set_field_value(0xffff);
        self.es_limit.set_field_value(0xffff);
        self.fs_limit.set_field_value(0xffff);
        self.gs_limit.set_field_value(0xffff);
        self.cs_attr.set_field_value(crate::regs::SEG_ATTR_CODE_16_R0_CO as u64);
        self.ss_attr.set_field_value(crate::regs::SEG_ATTR_DATA_16_R0 as u64);
        self.ds_attr.set_field_value(crate::regs::SEG_ATTR_DATA_16_R3 as u64);
        self.es_attr.set_field_value(crate::regs::SEG_ATTR_DATA_16_R3 as u64);
        self.fs_attr.set_field_value(crate::regs::SEG_ATTR_DATA_16_R3 as u64);
        self.gs_attr.set_field_value(crate::regs::SEG_ATTR_DATA_16_R3 as u64);
        self.tr_attr.set_field_value(crate::regs::SEG_ATTR_TSS_32 as u64);
        self.ldtr_attr.set_field_value(crate::regs::SEG_ATTR_UNUSABLE as u64);
        self.ia32_pat.set_field_value(pat);
        let mut rf = crate::rflags::Rflags(self.rflags.value);
        rf.update_u64(0);
        rf.set_it(true);
        proof {
            assert(crate::rflags::spec_rflags_filter(0) == 2) by (bit_vector);
        }
        proof {
            assert(2u64 | 0x200 == 0x202) by (bit_vector);
        }
        self.rflags.set_field_value(rf.0);
        self.rsp.set_field_value(crate::rmode::BASE_SP);
        self.rip.set_field_value(crate::rmode::BASE_IP);
    }
}

impl ExecCtl {
    /// Enable TSC offsetting, the I/O and MSR bitmaps, the secondary
    /// controls, the unrestricted EPT guest with its VPID tag, and
    /// intercept #GP and #MC; the MSR bitmap denies the MTRR default-type
    /// and EFER registers.
    pub fn init(&mut self, inp: &ExecInit, msr_map: &mut Bitmap)
        requires
            old(msr_map).wf(),
            inp.eptp_root & 0xfff == 0,
        ensures
            final(msr_map).wf(),
            final(self).proc1.value == old(self).proc1.value | crate::regs::PROC1_TSC
                | crate::regs::PROC1_USIO | crate::regs::PROC1_UMSR | crate::regs::PROC1_PROC2,
            final(self).proc2.value == old(self).proc2.value | crate::regs::PROC2_UGUEST
                | crate::regs::PROC2_RDTSCP | crate::regs::PROC2_EPT | crate::regs::PROC2_VPID,
            final(self).eptp.value == inp.eptp_root | crate::ept::MMT_WB | (3u64 << 3),
            final(self).vpid.value == inp.asid as u64,
            final(self).excp_bitmap.value == (1u64 << 13) | (1u64 << 18),
            final(self).pf_err_msk.value == 0,
            final(self).pf_err_mch.value == 0,
            final(self).ioA_bitmap.value == inp.ioA_addr,
            final(self).ioB_bitmap.value == inp.ioB_addr,
            final(self).msr_bitmap.value == inp.msr_map_addr,
    {
        let p1 = self.proc1.value | crate::regs::PROC1_TSC | crate::regs::PROC1_USIO
            | crate::regs::PROC1_UMSR | crate::regs::PROC1_PROC2;
        self.proc1.set_field_value(p1);
        let p2 = self.proc2.value | crate::regs::PROC2_UGUEST | crate::regs::PROC2_RDTSCP
            | crate::regs::PROC2_EPT | crate::regs::PROC2_VPID;
        self.proc2.set_field_value(p2);
        let eptp = inp.eptp_root | crate::ept::MMT_WB | (3u64 << 3);
        self.eptp.set_field_value(eptp);
        self.vpid.set_field_value(inp.asid as u64);
        self.excp_bitmap.set_field_value((1u64 << 13) | (1u64 << 18));
        self.pf_err_msk.set_field_value(0);
        self.pf_err_mch.set_field_value(0);
        self.ioA_bitmap.set_field_value(inp.ioA_addr);
        self.ioB_bitmap.set_field_value(inp.ioB_addr);
        msr_map.deny(crate::msr::IA32_MTRR_DEF_TYPE);
        msr_map.deny(crate::msr::IA32_EFER_INDEX);
        self.msr_bitmap.set_field_value(inp.msr_map_addr);
    }
}

impl ExitCtl {
    /// Acknowledge interrupts, return to the 64-bit host, load PERF, PAT
    /// and EFER on exit and save PAT and EFER.
    pub fn init(&mut self, store_addr: u64, load_addr: u64)
        ensures
            final(self).exit.value == old(self).exit.value | crate::regs::EXIT_ACK_INT
                | crate::regs::EXIT_HOST_LMODE | crate::regs::EXIT_LOAD_PERF
                | crate::regs::EXIT_LOAD_PAT | crate::regs::EXIT_LOAD_EFER
                | crate::regs::EXIT_SAVE_PAT | crate::regs::EXIT_SAVE_EFER,
            final(self).msr_store_addr.value == store_addr,
            final(self).msr_load_addr.value == load_addr,
    {
        let e = self.exit.value | crate::regs::EXIT_ACK_INT | crate::regs::EXIT_HOST_LMODE
            | crate::regs::EXIT_LOAD_PERF | crate::regs::EXIT_LOAD_PAT
            | crate::regs::EXIT_LOAD_EFER | crate::regs::EXIT_SAVE_PAT
            | crate::regs::EXIT_SAVE_EFER;
        self.exit.set_field_value(e);
        self.msr_store_addr.set_field_value(store_addr);
        self.msr_load_addr.set_field_value(load_addr);
    }
}

impl EntryCtl {
    /// Load PERF, PAT and EFER on entry.
    pub fn init(&mut self, load_addr: u64)
        ensures
            final(self).entry.value == old(self).entry.value | crate::regs::ENTRY_LOAD_PERF
                | crate::regs::ENTRY_LOAD_PAT | crate::regs::ENTRY_LOAD_EFER,
            final(self).msr_load_addr.value == load_addr,
    {
        let e = self.entry.value | crate::regs::ENTRY_LOAD_PERF | crate::regs::ENTRY_LOAD_PAT
            | crate::regs::ENTRY_LOAD_EFER;
        self.entry.set_field_value(e);
        self.msr_load_addr.set_field_value(load_addr);
    }
}


/// All the live machine state and placement addresses the mirror's init
/// phase consumes.
#[derive(Debug, Default, Copy, Clone, PartialEq, Eq, Structural)]
pub struct VmcsInit {
    pub host: HostInit,
    pub execution: ExecInit,
    pub exit_store_addr: u64,
    pub exit_load_addr: u64,
    pub entry_load_addr: u64,
    pub guest_pat: u64,
}

impl Ctl {
    /// Populate the three control groups.
    pub fn init(&mut self, inp: &VmcsInit, msr_map: &mut Bitmap)
        requires
            old(msr_map).wf(),
            inp.execution.eptp_root & 0xfff == 0,
        ensures
            final(msr_map).wf(),
            final(self).entry.entry.value == old(self).entry.entry.value
                | crate::regs::ENTRY_LOAD_PERF | crate::regs::ENTRY_LOAD_PAT
                | crate::regs::ENTRY_LOAD_EFER,
            final(self).entry.msr_load_addr.value == inp.entry_load_addr,
            final(self).exit.exit.value == old(self).exit.exit.value | crate::regs::EXIT_ACK_INT
                | crate::regs::EXIT_HOST_LMODE | crate::regs::EXIT_LOAD_PERF
                | crate::regs::EXIT_LOAD_PAT | crate::regs::EXIT_LOAD_EFER
                | crate::regs::EXIT_SAVE_PAT | crate::regs::EXIT_SAVE_EFER,
            final(self).exit.msr_store_addr.value == inp.exit_store_addr,
            final(self).exit.msr_load_addr.value == inp.exit_load_addr,
            final(self).execution.eptp.value == inp.execution.eptp_root | crate::ept::MMT_WB | (
            3u64 << 3),
            final(self).execution.vpid.value == inp.execution.asid as u64,
            final(self).execution.excp_bitmap.value == (1u64 << 13) | (1u64 << 18),
            final(self).execution.ioA_bitmap.value == inp.execution.ioA_addr,
            final(self).execution.ioB_bitmap.value == inp.execution.ioB_addr,
            final(self).execution.msr_bitmap.value == inp.execution.msr_map_addr,
    {
        self.entry.init(inp.entry_load_addr);
        self.execution.init(&inp.execution, msr_map);
        self.exit.init(inp.exit_store_addr, inp.exit_load_addr);
    }
}

impl VMCS {
    /// Populate the whole mirror: controls, host state, guest state.
    pub fn init(&mut self, inp: &VmcsInit, msr_map: &mut Bitmap)
        requires
            old(msr_map).wf(),
            inp.execution.eptp_root & 0xfff == 0,
        ensures
            final(msr_map).wf(),
            final(self).guest.rip.value == crate::rmode::BASE_IP,
            final(self).guest.rsp.value == crate::rmode::BASE_SP,
            final(self).guest.cs_sel.value == 0,
            final(self).guest.cs_base.value == 0,
            final(self).guest.ss_sel.value == crate::rmode::BASE_SS,
            final(self).guest.ss_base.value == crate::rmode::BASE_SS * 16,
            final(self).guest.rflags.value == 0x202,
            final(self).guest.activity.value == 0,
            final(self).guest.vmcs_link_ptr.value == u64::MAX,
            final(self).guest.idtr_limit.value == 0x15 * 4 - 1,
            final(self).guest.cs_limit.value == 0xffff,
            final(self).guest.cs_attr.value == crate::regs::SEG_ATTR_CODE_16_R0_CO as u64,
            final(self).guest.ldtr_attr.value == crate::regs::SEG_ATTR_UNUSABLE as u64,
            final(self).guest.ia32_pat.value == inp.guest_pat,
            final(self).host.rsp.value == inp.host.stack,
            final(self).host.rip.value == inp.host.entry,
            final(self).host.cr0.value == inp.host.cr0,
            final(self).host.cr3.value == inp.host.cr3,
            final(self).host.cr4.value == inp.host.cr4,
            final(self).host.cs.value == 8,
            final(self).host.tr.value == 24,
            final(self).host.gdtr_base.value == inp.host.gdtr_base,
            final(self).host.idtr_base.value == inp.host.idtr_base,
            final(self).ctrl.execution.eptp.value == inp.execution.eptp_root | crate::ept::MMT_WB
                | (3u64 << 3),
            final(self).ctrl.execution.vpid.value == inp.execution.asid as u64,
            final(self).ctrl.execution.excp_bitmap.value == (1u64 << 13) | (1u64 << 18),
            final(self).ctrl.entry.entry.value == old(self).ctrl.entry.entry.value
                | crate::regs::ENTRY_LOAD_PERF | crate::regs::ENTRY_LOAD_PAT
                | crate::regs::ENTRY_LOAD_EFER,
            final(self).ctrl.exit.exit.value == old(self).ctrl.exit.exit.value
                | crate::regs::EXIT_ACK_INT | crate::regs::EXIT_HOST_LMODE
                | crate::regs::EXIT_LOAD_PERF | crate::regs::EXIT_LOAD_PAT
                | crate::regs::EXIT_LOAD_EFER | crate::regs::EXIT_SAVE_PAT
                | crate::regs::EXIT_SAVE_EFER,
    {
        self.ctrl.init(inp, msr_map);
        self.host.init(&inp.host);
        self.guest.init(inp.guest_pat);
    }
}

impl Host {
    /// Every field's encoding, with the mirror marks ignored, is its
    /// assigned constant: the shape the mirror has at runtime after the
    /// encode phase.
    pub open spec fn loose_encoded(&self) -> bool {
        &&& self.cr0.encoding.0 & !0x8000u32 & !0x10000u32 == HOST_STATE_CR0
        &&& self.cr3.encoding.0 & !0x8000u32 & !0x10000u32 == HOST_STATE_CR3
        &&& self.cr4.encoding.0 & !0x8000u32 & !0x10000u32 == HOST_STATE_CR4
        &&& self.rsp.encoding.0 & !0x8000u32 & !0x10000u32 == HOST_STATE_RSP
        &&& self.rip.encoding.0 & !0x8000u32 & !0x10000u32 == HOST_STATE_RIP
        &&& self.cs.encoding.0 & !0x8000u32 & !0x10000u32 == HOST_STATE_CS_SEL
        &&& self.ss.encoding.0 & !0x8000u32 & !0x10000u32 == HOST_STATE_SS_SEL
        &&& self.ds.encoding.0 & !0x8000u32 & !0x10000u32 == HOST_STATE_DS_SEL
        &&& self.es.encoding.0 & !0x8000u32 & !0x10000u32 == HOST_STATE_ES_SEL
        &&& self.fs.encoding.0 & !0x8000u32 & !0x10000u32 == HOST_STATE_FS_SEL
        &&& self.gs.encoding.0 & !0x8000u32 & !0x10000u32 == HOST_STATE_GS_SEL
        &&& self.tr.encoding.0 & !0x8000u32 & !0x10000u32 == HOST_STATE_TR_SEL
        &&& self.fs_base.encoding.0 & !0x8000u32 & !0x10000u32 == HOST_STATE_FS_BASE
        &&& self.gs_base.encoding.0 & !0x8000u32 & !0x10000u32 == HOST_STATE_GS_BASE
        &&& self.tr_base.encoding.0 & !0x8000u32 & !0x10000u32 == HOST_STATE_TR_BASE
        &&& self.gdtr_base.encoding.0 & !0x8000u32 & !0x10000u32 == HOST_STATE_GDTR_BASE
        &&& self.idtr_base.encoding.0 & !0x8000u32 & !0x10000u32 == HOST_STATE_IDTR_BASE
        &&& self.ia32_sysenter_cs.encoding.0 & !0x8000u32 & !0x10000u32 == HOST_STATE_IA32_SYSENTER_CS
        &&& self.ia32_sysenter_esp.encoding.0 & !0x8000u32 & !0x10000u32 == HOST_STATE_IA32_SYSENTER_ESP
        &&& self.ia32_sysenter_eip.encoding.0 & !0x8000u32 & !0x10000u32 == HOST_STATE_IA32_SYSENTER_EIP
        &&& self.ia32_perf.encoding.0 & !0x8000u32 & !0x10000u32 == HOST_STATE_IA32_PERF_GLOBAL
        &&& self.ia32_pat.encoding.0 & !0x8000u32 & !0x10000u32 == HOST_STATE_IA32_PAT
        &&& self.ia32_efer.encoding.0 & !0x8000u32 & !0x10000u32 == HOST_STATE_IA32_EFER
    }

    /// Runtime flush: write back only the host fields marked dirty, in the setup order.
    #[verifier::rlimit(100)]
    #[verifier::spinoff_prover]
    pub fn commit_dirty(&mut self, hw: &mut Region, exit_ctls: u64) -> (r: Result<(), VmmError>)
        ensures
            r is Ok,
            final(hw).revision_id == old(hw).revision_id,
            old(self).loose_encoded() && old(self).cr0.encoding.0 & 0x10000 != 0 ==> final(hw).spec_field(HOST_STATE_CR0 as u64) == Some(old(self).cr0.value),
            old(self).loose_encoded() && !(old(self).cr0.encoding.0 & 0x10000 != 0) ==> final(hw).spec_field(HOST_STATE_CR0 as u64) == old(hw).spec_field(HOST_STATE_CR0 as u64),
            old(self).loose_encoded() && old(self).cr3.encoding.0 & 0x10000 != 0 ==> final(hw).spec_field(HOST_STATE_CR3 as u64) == Some(old(self).cr3.value),
            old(self).loose_encoded() && !(old(self).cr3.encoding.0 & 0x10000 != 0) ==> final(hw).spec_field(HOST_STATE_CR3 as u64) == old(hw).spec_field(HOST_STATE_CR3 as u64),
            old(self).loose_encoded() && old(self).cr4.encoding.0 & 0x10000 != 0 ==> final(hw).spec_field(HOST_STATE_CR4 as u64) == Some(old(self).cr4.value),
            old(self).loose_encoded() && !(old(self).cr4.encoding.0 & 0x10000 != 0) ==> final(hw).spec_field(HOST_STATE_CR4 as u64) == old(hw).spec_field(HOST_STATE_CR4 as u64),
            old(self).loose_encoded() && old(self).rsp.encoding.0 & 0x10000 != 0 ==> final(hw).spec_field(HOST_STATE_RSP as u64) == Some(old(self).rsp.value),
            old(self).loose_encoded() && !(old(self).rsp.encoding.0 & 0x10000 != 0) ==> final(hw).spec_field(HOST_STATE_RSP as u64) == old(hw).spec_field(HOST_STATE_RSP as u64),
            old(self).loose_encoded() && old(self).rip.encoding.0 & 0x10000 != 0 ==> final(hw).spec_field(HOST_STATE_RIP as u64) == Some(old(self).rip.value),
            old(self).loose_encoded() && !(old(self).rip.encoding.0 & 0x10000 != 0) ==> final(hw).spec_field(HOST_STATE_RIP as u64) == old(hw).spec_field(HOST_STATE_RIP as u64),
            old(self).loose_encoded() && old(self).cs.encoding.0 & 0x10000 != 0 ==> final(hw).spec_field(HOST_STATE_CS_SEL as u64) == Some(old(self).cs.value),
            old(self).loose_encoded() && !(old(self).cs.encoding.0 & 0x10000 != 0) ==> final(hw).spec_field(HOST_STATE_CS_SEL as u64) == old(hw).spec_field(HOST_STATE_CS_SEL as u64),
            old(self).loose_encoded() && old(self).ss.encoding.0 & 0x10000 != 0 ==> final(hw).spec_field(HOST_STATE_SS_SEL as u64) == Some(old(self).ss.value),
            old(self).loose_encoded() && !(old(self).ss.encoding.0 & 0x10000 != 0) ==> final(hw).spec_field(HOST_STATE_SS_SEL as u64) == old(hw).spec_field(HOST_STATE_SS_SEL as u64),
            old(self).loose_encoded() && old(self).ds.encoding.0 & 0x10000 != 0 ==> final(hw).spec_field(HOST_STATE_DS_SEL as u64) == Some(old(self).ds.value),
            old(self).loose_encoded() && !(old(self).ds.encoding.0 & 0x10000 != 0) ==> final(hw).spec_field(HOST_STATE_DS_SEL as u64) == old(hw).spec_field(HOST_STATE_DS_SEL as u64),
            old(self).loose_encoded() && old(self).es.encoding.0 & 0x10000 != 0 ==> final(hw).spec_field(HOST_STATE_ES_SEL as u64) == Some(old(self).es.value),
            old(self).loose_encoded() && !(old(self).es.encoding.0 & 0x10000 != 0) ==> final(hw).spec_field(HOST_STATE_ES_SEL as u64) == old(hw).spec_field(HOST_STATE_ES_SEL as u64),
            old(self).loose_encoded() && old(self).fs.encoding.0 & 0x10000 != 0 ==> final(hw).spec_field(HOST_STATE_FS_SEL as u64) == Some(old(self).fs.value),
            old(self).loose_encoded() && !(old(self).fs.encoding.0 & 0x10000 != 0) ==> final(hw).spec_field(HOST_STATE_FS_SEL as u64) == old(hw).spec_field(HOST_STATE_FS_SEL as u64),
            old(self).loose_encoded() && old(self).gs.encoding.0 & 0x10000 != 0 ==> final(hw).spec_field(HOST_STATE_GS_SEL as u64) == Some(old(self).gs.value),
            old(self).loose_encoded() && !(old(self).gs.encoding.0 & 0x10000 != 0) ==> final(hw).spec_field(HOST_STATE_GS_SEL as u64) == old(hw).spec_field(HOST_STATE_GS_SEL as u64),
            old(self).loose_encoded() && old(self).tr.encoding.0 & 0x10000 != 0 ==> final(hw).spec_field(HOST_STATE_TR_SEL as u64) == Some(old(self).tr.value),
            old(self).loose_encoded() && !(old(self).tr.encoding.0 & 0x10000 != 0) ==> final(hw).spec_field(HOST_STATE_TR_SEL as u64) == old(hw).spec_field(HOST_STATE_TR_SEL as u64),
            old(self).loose_encoded() && old(self).fs_base.encoding.0 & 0x10000 != 0 ==> final(hw).spec_field(HOST_STATE_FS_BASE as u64) == Some(old(self).fs_base.value),
            old(self).loose_encoded() && !(old(self).fs_base.encoding.0 & 0x10000 != 0) ==> final(hw).spec_field(HOST_STATE_FS_BASE as u64) == old(hw).spec_field(HOST_STATE_FS_BASE as u64),
            old(self).loose_encoded() && old(self).gs_base.encoding.0 & 0x10000 != 0 ==> final(hw).spec_field(HOST_STATE_GS_BASE as u64) == Some(old(self).gs_base.value),
            old(self).loose_encoded() && !(old(self).gs_base.encoding.0 & 0x10000 != 0) ==> final(hw).spec_field(HOST_STATE_GS_BASE as u64) == old(hw).spec_field(HOST_STATE_GS_BASE as u64),
            old(self).loose_encoded() && old(self).tr_base.encoding.0 & 0x10000 != 0 ==> final(hw).spec_field(HOST_STATE_TR_BASE as u64) == Some(old(self).tr_base.value),
            old(self).loose_encoded() && !(old(self).tr_base.encoding.0 & 0x10000 != 0) ==> final(hw).spec_field(HOST_STATE_TR_BASE as u64) == old(hw).spec_field(HOST_STATE_TR_BASE as u64),
            old(self).loose_encoded() && old(self).gdtr_base.encoding.0 & 0x10000 != 0 ==> final(hw).spec_field(HOST_STATE_GDTR_BASE as u64) == Some(old(self).gdtr_base.value),
            old(self).loose_encoded() && !(old(self).gdtr_base.encoding.0 & 0x10000 != 0) ==> final(hw).spec_field(HOST_STATE_GDTR_BASE as u64) == old(hw).spec_field(HOST_STATE_GDTR_BASE as u64),
            old(self).loose_encoded() && old(self).idtr_base.encoding.0 & 0x10000 != 0 ==> final(hw).spec_field(HOST_STATE_IDTR_BASE as u64) == Some(old(self).idtr_base.value),
            old(self).loose_encoded() && !(old(self).idtr_base.encoding.0 & 0x10000 != 0) ==> final(hw).spec_field(HOST_STATE_IDTR_BASE as u64) == old(hw).spec_field(HOST_STATE_IDTR_BASE as u64),
            old(self).loose_encoded() && old(self).ia32_sysenter_cs.encoding.0 & 0x10000 != 0 ==> final(hw).spec_field(HOST_STATE_IA32_SYSENTER_CS as u64) == Some(old(self).ia32_sysenter_cs.value),
            old(self).loose_encoded() && !(old(self).ia32_sysenter_cs.encoding.0 & 0x10000 != 0) ==> final(hw).spec_field(HOST_STATE_IA32_SYSENTER_CS as u64) == old(hw).spec_field(HOST_STATE_IA32_SYSENTER_CS as u64),
            old(self).loose_encoded() && old(self).ia32_sysenter_esp.encoding.0 & 0x10000 != 0 ==> final(hw).spec_field(HOST_STATE_IA32_SYSENTER_ESP as u64) == Some(old(self).ia32_sysenter_esp.value),
            old(self).loose_encoded() && !(old(self).ia32_sysenter_esp.encoding.0 & 0x10000 != 0) ==> final(hw).spec_field(HOST_STATE_IA32_SYSENTER_ESP as u64) == old(hw).spec_field(HOST_STATE_IA32_SYSENTER_ESP as u64),
            old(self).loose_encoded() && old(self).ia32_sysenter_eip.encoding.0 & 0x10000 != 0 ==> final(hw).spec_field(HOST_STATE_IA32_SYSENTER_EIP as u64) == Some(old(self).ia32_sysenter_eip.value),
            old(self).loose_encoded() && !(old(self).ia32_sysenter_eip.encoding.0 & 0x10000 != 0) ==> final(hw).spec_field(HOST_STATE_IA32_SYSENTER_EIP as u64) == old(hw).spec_field(HOST_STATE_IA32_SYSENTER_EIP as u64),
            old(self).loose_encoded() && old(self).ia32_perf.encoding.0 & 0x10000 != 0 && (exit_ctls & crate::regs::EXIT_LOAD_PERF != 0) ==> final(hw).spec_field(HOST_STATE_IA32_PERF_GLOBAL as u64) == Some(old(self).ia32_perf.value),
            old(self).loose_encoded() && !(old(self).ia32_perf.encoding.0 & 0x10000 != 0 && (exit_ctls & crate::regs::EXIT_LOAD_PERF != 0)) ==> final(hw).spec_field(HOST_STATE_IA32_PERF_GLOBAL as u64) == old(hw).spec_field(HOST_STATE_IA32_PERF_GLOBAL as u64),
            old(self).loose_encoded() && old(self).ia32_pat.encoding.0 & 0x10000 != 0 && (exit_ctls & crate::regs::EXIT_LOAD_PAT != 0) ==> final(hw).spec_field(HOST_STATE_IA32_PAT as u64) == Some(old(self).ia32_pat.value),
            old(self).loose_encoded() && !(old(self).ia32_pat.encoding.0 & 0x10000 != 0 && (exit_ctls & crate::regs::EXIT_LOAD_PAT != 0)) ==> final(hw).spec_field(HOST_STATE_IA32_PAT as u64) == old(hw).spec_field(HOST_STATE_IA32_PAT as u64),
            old(self).loose_encoded() && old(self).ia32_efer.encoding.0 & 0x10000 != 0 && (exit_ctls & crate::regs::EXIT_LOAD_EFER != 0) ==> final(hw).spec_field(HOST_STATE_IA32_EFER as u64) == Some(old(self).ia32_efer.value),
            old(self).loose_encoded() && !(old(self).ia32_efer.encoding.0 & 0x10000 != 0 && (exit_ctls & crate::regs::EXIT_LOAD_EFER != 0)) ==> final(hw).spec_field(HOST_STATE_IA32_EFER as u64) == old(hw).spec_field(HOST_STATE_IA32_EFER as u64),
            old(self).loose_encoded() ==> (forall|k: u64| !spec_host_key(k) ==> (#[trigger] final(hw).spec_field(k)) == old(hw).spec_field(k)),
            old(self).loose_encoded() ==> final(hw).cr2 == old(hw).cr2 || false,
    {
        self.es.flush(hw)?;
        self.cs.flush(hw)?;
        self.ss.flush(hw)?;
        self.ds.flush(hw)?;
        self.fs.flush(hw)?;
        self.gs.flush(hw)?;
        self.tr.flush(hw)?;
        if exit_ctls & crate::regs::EXIT_LOAD_PAT != 0 {
            self.ia32_pat.flush(hw)?;
        }
        if exit_ctls & crate::regs::EXIT_LOAD_EFER != 0 {
            self.ia32_efer.flush(hw)?;
        }
        if exit_ctls & crate::regs::EXIT_LOAD_PERF != 0 {
            self.ia32_perf.flush(hw)?;
        }
        self.ia32_sysenter_cs.flush(hw)?;
        self.cr0.flush(hw)?;
        self.cr3.flush(hw)?;
        self.cr4.flush(hw)?;
        self.fs_base.flush(hw)?;
        self.gs_base.flush(hw)?;
        self.tr_base.flush(hw)?;
        self.gdtr_base.flush(hw)?;
        self.idtr_base.flush(hw)?;
        self.ia32_sysenter_esp.flush(hw)?;
        self.ia32_sysenter_eip.flush(hw)?;
        self.rsp.flush(hw)?;
        self.rip.flush(hw)?;
        Ok(())
    }
}

/// Encodings the low half of the guest's runtime flush may write.
pub open spec fn spec_guest_key_low(k: u64) -> bool {
    ||| k == GUEST_STATE_CR0 as u64
    ||| k == GUEST_STATE_CR4 as u64
    ||| k == GUEST_STATE_ES_SEL as u64
    ||| k == GUEST_STATE_CS_SEL as u64
    ||| k == GUEST_STATE_SS_SEL as u64
    ||| k == GUEST_STATE_DS_SEL as u64
    ||| k == GUEST_STATE_FS_SEL as u64
    ||| k == GUEST_STATE_GS_SEL as u64
    ||| k == GUEST_STATE_LDTR_SEL as u64
    ||| k == GUEST_STATE_TR_SEL as u64
    ||| k == GUEST_STATE_VMCS_LINK_PTR as u64
    ||| k == GUEST_STATE_IA32_PAT as u64
    ||| k == GUEST_STATE_IA32_EFER as u64
    ||| k == GUEST_STATE_IA32_PERF_GLOBAL as u64
    ||| k == GUEST_STATE_PDPTE0 as u64
    ||| k == GUEST_STATE_PDPTE1 as u64
    ||| k == GUEST_STATE_PDPTE2 as u64
    ||| k == GUEST_STATE_PDPTE3 as u64
    ||| k == GUEST_STATE_ES_LIMIT as u64
    ||| k == GUEST_STATE_CS_LIMIT as u64
    ||| k == GUEST_STATE_SS_LIMIT as u64
    ||| k == GUEST_STATE_DS_LIMIT as u64
    ||| k == GUEST_STATE_FS_LIMIT as u64
    ||| k == GUEST_STATE_GS_LIMIT as u64
    ||| k == GUEST_STATE_LDTR_LIMIT as u64
    ||| k == GUEST_STATE_TR_LIMIT as u64
    ||| k == GUEST_STATE_GDTR_LIMIT as u64
    ||| k == GUEST_STATE_IDTR_LIMIT as u64
}

/// Encodings the high half of the guest's runtime flush may write.
pub open spec fn spec_guest_key_high(k: u64) -> bool {
    ||| k == GUEST_STATE_ES_ACCESS_RIGHTS as u64
    ||| k == GUEST_STATE_CS_ACCESS_RIGHTS as u64
    ||| k == GUEST_STATE_SS_ACCESS_RIGHTS as u64
    ||| k == GUEST_STATE_DS_ACCESS_RIGHTS as u64
    ||| k == GUEST_STATE_FS_ACCESS_RIGHTS as u64
    ||| k == GUEST_STATE_GS_ACCESS_RIGHTS as u64
    ||| k == GUEST_STATE_LDTR_ACCESS_RIGHTS as u64
    ||| k == GUEST_STATE_TR_ACCESS_RIGHTS as u64
    ||| k == GUEST_STATE_INT_STATE as u64
    ||| k == GUEST_STATE_ACTIVITY_STATE as u64
    ||| k == GUEST_STATE_SMBASE as u64
    ||| k == GUEST_STATE_IA32_SYSENTER_CS as u64
    ||| k == GUEST_STATE_PREEMPT_TIMER as u64
    ||| k == GUEST_STATE_CR3 as u64
    ||| k == GUEST_STATE_ES_BASE as u64
    ||| k == GUEST_STATE_CS_BASE as u64
    ||| k == GUEST_STATE_SS_BASE as u64
    ||| k == GUEST_STATE_DS_BASE as u64
    ||| k == GUEST_STATE_FS_BASE as u64
    ||| k == GUEST_STATE_GS_BASE as u64
    ||| k == GUEST_STATE_TR_BASE as u64
    ||| k == GUEST_STATE_LDTR_BASE as u64
    ||| k == GUEST_STATE_GDTR_BASE as u64
    ||| k == GUEST_STATE_IDTR_BASE as u64
    ||| k == GUEST_STATE_DR7 as u64
    ||| k == GUEST_STATE_RSP as u64
    ||| k == GUEST_STATE_RIP as u64
    ||| k == GUEST_STATE_RFLAGS as u64
    ||| k == GUEST_STATE_PENDING_DBG_EXCP as u64
    ||| k == GUEST_STATE_IA32_SYSENTER_ESP as u64
    ||| k == GUEST_STATE_IA32_SYSENTER_EIP as u64
}

impl Guest {
    /// First half of the runtime flush, in the setup order.
    #[verifier::rlimit(100)]
    #[verifier::spinoff_prover]
    fn commit_dirty_low(&mut self, hw: &mut Region, entry_ctls: u64) -> (r: Result<(), VmmError>)
        ensures
            r is Ok,
            final(hw).revision_id == old(hw).revision_id,
            final(self).cr0.value == old(self).cr0.value,
            final(self).cr0.encoding.0 & !0x8000u32 & !0x10000u32 == old(self).cr0.encoding.0 & !0x8000u32 & !0x10000u32,
            final(self).cr0.fixed == old(self).cr0.fixed,
            final(self).cr2 == old(self).cr2,
            final(self).cr3 == old(self).cr3,
            final(self).cr4.value == old(self).cr4.value,
            final(self).cr4.encoding.0 & !0x8000u32 & !0x10000u32 == old(self).cr4.encoding.0 & !0x8000u32 & !0x10000u32,
            final(self).cr4.fixed == old(self).cr4.fixed,
            final(self).dr6 == old(self).dr6,
            final(self).dr7 == old(self).dr7,
            final(self).rsp == old(self).rsp,
            final(self).rip == old(self).rip,
            final(self).rflags == old(self).rflags,
            final(self).es_sel.value == old(self).es_sel.value,
            final(self).es_sel.encoding.0 & !0x8000u32 & !0x10000u32 == old(self).es_sel.encoding.0 & !0x8000u32 & !0x10000u32,
            final(self).es_base == old(self).es_base,
            final(self).es_limit.value == old(self).es_limit.value,
            final(self).es_limit.encoding.0 & !0x8000u32 & !0x10000u32 == old(self).es_limit.encoding.0 & !0x8000u32 & !0x10000u32,
            final(self).es_attr == old(self).es_attr,
            final(self).cs_sel.value == old(self).cs_sel.value,
            final(self).cs_sel.encoding.0 & !0x8000u32 & !0x10000u32 == old(self).cs_sel.encoding.0 & !0x8000u32 & !0x10000u32,
            final(self).cs_base == old(self).cs_base,
            final(self).cs_limit.value == old(self).cs_limit.value,
            final(self).cs_limit.encoding.0 & !0x8000u32 & !0x10000u32 == old(self).cs_limit.encoding.0 & !0x8000u32 & !0x10000u32,
            final(self).cs_attr == old(self).cs_attr,
            final(self).ss_sel.value == old(self).ss_sel.value,
            final(self).ss_sel.encoding.0 & !0x8000u32 & !0x10000u32 == old(self).ss_sel.encoding.0 & !0x8000u32 & !0x10000u32,
            final(self).ss_base == old(self).ss_base,
            final(self).ss_limit.value == old(self).ss_limit.value,
            final(self).ss_limit.encoding.0 & !0x8000u32 & !0x10000u32 == old(self).ss_limit.encoding.0 & !0x8000u32 & !0x10000u32,
            final(self).ss_attr == old(self).ss_attr,
            final(self).ds_sel.value == old(self).ds_sel.value,
            final(self).ds_sel.encoding.0 & !0x8000u32 & !0x10000u32 == old(self).ds_sel.encoding.0 & !0x8000u32 & !0x10000u32,
            final(self).ds_base == old(self).ds_base,
            final(self).ds_limit.value == old(self).ds_limit.value,
            final(self).ds_limit.encoding.0 & !0x8000u32 & !0x10000u32 == old(self).ds_limit.encoding.0 & !0x8000u32 & !0x10000u32,
            final(self).ds_attr == old(self).ds_attr,
            final(self).fs_sel.value == old(self).fs_sel.value,
            final(self).fs_sel.encoding.0 & !0x8000u32 & !0x10000u32 == old(self).fs_sel.encoding.0 & !0x8000u32 & !0x10000u32,
            final(self).fs_base == old(self).fs_base,
            final(self).fs_limit.value == old(self).fs_limit.value,
            final(self).fs_limit.encoding.0 & !0x8000u32 & !0x10000u32 == old(self).fs_limit.encoding.0 & !0x8000u32 & !0x10000u32,
            final(self).fs_attr == old(self).fs_attr,
            final(self).gs_sel.value == old(self).gs_sel.value,
            final(self).gs_sel.encoding.0 & !0x8000u32 & !0x10000u32 == old(self).gs_sel.encoding.0 & !0x8000u32 & !0x10000u32,
            final(self).gs_base == old(self).gs_base,
            final(self).gs_limit.value == old(self).gs_limit.value,
            final(self).gs_limit.encoding.0 & !0x8000u32 & !0x10000u32 == old(self).gs_limit.encoding.0 & !0x8000u32 & !0x10000u32,
            final(self).gs_attr == old(self).gs_attr,
            final(self).ldtr_sel.value == old(self).ldtr_sel.value,
            final(self).ldtr_sel.encoding.0 & !0x8000u32 & !0x10000u32 == old(self).ldtr_sel.encoding.0 & !0x8000u32 & !0x10000u32,
            final(self).ldtr_base == old(self).ldtr_base,
            final(self).ldtr_limit.value == old(self).ldtr_limit.value,
            final(self).ldtr_limit.encoding.0 & !0x8000u32 & !0x10000u32 == old(self).ldtr_limit.encoding.0 & !0x8000u32 & !0x10000u32,
            final(self).ldtr_attr == old(self).ldtr_attr,
            final(self).tr_sel.value == old(self).tr_sel.value,
            final(self).tr_sel.encoding.0 & !0x8000u32 & !0x10000u32 == old(self).tr_sel.encoding.0 & !0x8000u32 & !0x10000u32,
            final(self).tr_base == old(self).tr_base,
            final(self).tr_limit.value == old(self).tr_limit.value,
            final(self).tr_limit.encoding.0 & !0x8000u32 & !0x10000u32 == old(self).tr_limit.encoding.0 & !0x8000u32 & !0x10000u32,
            final(self).tr_attr == old(self).tr_attr,
            final(self).gdtr_base == old(self).gdtr_base,
            final(self).gdtr_limit.value == old(self).gdtr_limit.value,
            final(self).gdtr_limit.encoding.0 & !0x8000u32 & !0x10000u32 == old(self).gdtr_limit.encoding.0 & !0x8000u32 & !0x10000u32,
            final(self).idtr_base == old(self).idtr_base,
            final(self).idtr_limit.value == old(self).idtr_limit.value,
            final(self).idtr_limit.encoding.0 & !0x8000u32 & !0x10000u32 == old(self).idtr_limit.encoding.0 & !0x8000u32 & !0x10000u32,
            final(self).ia32_dbgctl == old(self).ia32_dbgctl,
            final(self).ia32_sysenter_cs == old(self).ia32_sysenter_cs,
            final(self).ia32_sysenter_esp == old(self).ia32_sysenter_esp,
            final(self).ia32_sysenter_eip == old(self).ia32_sysenter_eip,
            final(self).ia32_perf.value == old(self).ia32_perf.value,
            final(self).ia32_perf.encoding.0 & !0x8000u32 & !0x10000u32 == old(self).ia32_perf.encoding.0 & !0x8000u32 & !0x10000u32,
            final(self).ia32_pat.value == old(self).ia32_pat.value,
            final(self).ia32_pat.encoding.0 & !0x8000u32 & !0x10000u32 == old(self).ia32_pat.encoding.0 & !0x8000u32 & !0x10000u32,
            final(self).ia32_efer.value == old(self).ia32_efer.value,
            final(self).ia32_efer.encoding.0 & !0x8000u32 & !0x10000u32 == old(self).ia32_efer.encoding.0 & !0x8000u32 & !0x10000u32,
            final(self).ia32_bndcfg == old(self).ia32_bndcfg,
            final(self).smbase == old(self).smbase,
            final(self).activity == old(self).activity,
            final(self).interrupt == old(self).interrupt,
            final(self).pending_dbg == old(self).pending_dbg,
            final(self).vmcs_link_ptr.value == old(self).vmcs_link_ptr.value,
            final(self).vmcs_link_ptr.encoding.0 & !0x8000u32 & !0x10000u32 == old(self).vmcs_link_ptr.encoding.0 & !0x8000u32 & !0x10000u32,
            final(self).preempt_timer == old(self).preempt_timer,
            final(self).pdpe_0.value == old(self).pdpe_0.value,
            final(self).pdpe_0.encoding.0 & !0x8000u32 & !0x10000u32 == old(self).pdpe_0.encoding.0 & !0x8000u32 & !0x10000u32,
            final(self).pdpe_1.value == old(self).pdpe_1.value,
            final(self).pdpe_1.encoding.0 & !0x8000u32 & !0x10000u32 == old(self).pdpe_1.encoding.0 & !0x8000u32 & !0x10000u32,
            final(self).pdpe_2.value == old(self).pdpe_2.value,
            final(self).pdpe_2.encoding.0 & !0x8000u32 & !0x10000u32 == old(self).pdpe_2.encoding.0 & !0x8000u32 & !0x10000u32,
            final(self).pdpe_3.value == old(self).pdpe_3.value,
            final(self).pdpe_3.encoding.0 & !0x8000u32 & !0x10000u32 == old(self).pdpe_3.encoding.0 & !0x8000u32 & !0x10000u32,
            final(self).guest_intr == old(self).guest_intr,
            final(self).pml_index == old(self).pml_index,
            old(self).loose_encoded() && old(self).cr0.encoding.0 & 0x10000 != 0 ==> final(hw).spec_field(GUEST_STATE_CR0 as u64) == Some(crate::regs::spec_mask(old(self).cr0.fixed, old(self).cr0.value)),
            old(self).loose_encoded() && !(old(self).cr0.encoding.0 & 0x10000 != 0) ==> final(hw).spec_field(GUEST_STATE_CR0 as u64) == old(hw).spec_field(GUEST_STATE_CR0 as u64),
            old(self).loose_encoded() && old(self).cr4.encoding.0 & 0x10000 != 0 ==> final(hw).spec_field(GUEST_STATE_CR4 as u64) == Some(crate::regs::spec_mask(old(self).cr4.fixed, old(self).cr4.value)),
            old(self).loose_encoded() && !(old(self).cr4.encoding.0 & 0x10000 != 0) ==> final(hw).spec_field(GUEST_STATE_CR4 as u64) == old(hw).spec_field(GUEST_STATE_CR4 as u64),
            old(self).loose_encoded() && old(self).es_sel.encoding.0 & 0x10000 != 0 ==> final(hw).spec_field(GUEST_STATE_ES_SEL as u64) == Some(old(self).es_sel.value),
            old(self).loose_encoded() && !(old(self).es_sel.encoding.0 & 0x10000 != 0) ==> final(hw).spec_field(GUEST_STATE_ES_SEL as u64) == old(hw).spec_field(GUEST_STATE_ES_SEL as u64),
            old(self).loose_encoded() && old(self).cs_sel.encoding.0 & 0x10000 != 0 ==> final(hw).spec_field(GUEST_STATE_CS_SEL as u64) == Some(old(self).cs_sel.value),
            old(self).loose_encoded() && !(old(self).cs_sel.encoding.0 & 0x10000 != 0) ==> final(hw).spec_field(GUEST_STATE_CS_SEL as u64) == old(hw).spec_field(GUEST_STATE_CS_SEL as u64),
            old(self).loose_encoded() && old(self).ss_sel.encoding.0 & 0x10000 != 0 ==> final(hw).spec_field(GUEST_STATE_SS_SEL as u64) == Some(old(self).ss_sel.value),
            old(self).loose_encoded() && !(old(self).ss_sel.encoding.0 & 0x10000 != 0) ==> final(hw).spec_field(GUEST_STATE_SS_SEL as u64) == old(hw).spec_field(GUEST_STATE_SS_SEL as u64),
            old(self).loose_encoded() && old(self).ds_sel.encoding.0 & 0x10000 != 0 ==> final(hw).spec_field(GUEST_STATE_DS_SEL as u64) == Some(old(self).ds_sel.value),
            old(self).loose_encoded() && !(old(self).ds_sel.encoding.0 & 0x10000 != 0) ==> final(hw).spec_field(GUEST_STATE_DS_SEL as u64) == old(hw).spec_field(GUEST_STATE_DS_SEL as u64),
            old(self).loose_encoded() && old(self).fs_sel.encoding.0 & 0x10000 != 0 ==> final(hw).spec_field(GUEST_STATE_FS_SEL as u64) == Some(old(self).fs_sel.value),
            old(self).loose_encoded() && !(old(self).fs_sel.encoding.0 & 0x10000 != 0) ==> final(hw).spec_field(GUEST_STATE_FS_SEL as u64) == old(hw).spec_field(GUEST_STATE_FS_SEL as u64),
            old(self).loose_encoded() && old(self).gs_sel.encoding.0 & 0x10000 != 0 ==> final(hw).spec_field(GUEST_STATE_GS_SEL as u64) == Some(old(self).gs_sel.value),
            old(self).loose_encoded() && !(old(self).gs_sel.encoding.0 & 0x10000 != 0) ==> final(hw).spec_field(GUEST_STATE_GS_SEL as u64) == old(hw).spec_field(GUEST_STATE_GS_SEL as u64),
            old(self).loose_encoded() && old(self).ldtr_sel.encoding.0 & 0x10000 != 0 ==> final(hw).spec_field(GUEST_STATE_LDTR_SEL as u64) == Some(old(self).ldtr_sel.value),
            old(self).loose_encoded() && !(old(self).ldtr_sel.encoding.0 & 0x10000 != 0) ==> final(hw).spec_field(GUEST_STATE_LDTR_SEL as u64) == old(hw).spec_field(GUEST_STATE_LDTR_SEL as u64),
            old(self).loose_encoded() && old(self).tr_sel.encoding.0 & 0x10000 != 0 ==> final(hw).spec_field(GUEST_STATE_TR_SEL as u64) == Some(old(self).tr_sel.value),
            old(self).loose_encoded() && !(old(self).tr_sel.encoding.0 & 0x10000 != 0) ==> final(hw).spec_field(GUEST_STATE_TR_SEL as u64) == old(hw).spec_field(GUEST_STATE_TR_SEL as u64),
            old(self).loose_encoded() && old(self).vmcs_link_ptr.encoding.0 & 0x10000 != 0 ==> final(hw).spec_field(GUEST_STATE_VMCS_LINK_PTR as u64) == Some(old(self).vmcs_link_ptr.value),
            old(self).loose_encoded() && !(old(self).vmcs_link_ptr.encoding.0 & 0x10000 != 0) ==> final(hw).spec_field(GUEST_STATE_VMCS_LINK_PTR as u64) == old(hw).spec_field(GUEST_STATE_VMCS_LINK_PTR as u64),
            old(self).loose_encoded() && old(self).ia32_pat.encoding.0 & 0x10000 != 0 && (entry_ctls & crate::regs::ENTRY_LOAD_PAT != 0) ==> final(hw).spec_field(GUEST_STATE_IA32_PAT as u64) == Some(old(self).ia32_pat.value),
            old(self).loose_encoded() && !(old(self).ia32_pat.encoding.0 & 0x10000 != 0 && (entry_ctls & crate::regs::ENTRY_LOAD_PAT != 0)) ==> final(hw).spec_field(GUEST_STATE_IA32_PAT as u64) == old(hw).spec_field(GUEST_STATE_IA32_PAT as u64),
            old(self).loose_encoded() && old(self).ia32_efer.encoding.0 & 0x10000 != 0 && (entry_ctls & crate::regs::ENTRY_LOAD_EFER != 0) ==> final(hw).spec_field(GUEST_STATE_IA32_EFER as u64) == Some(old(self).ia32_efer.value),
            old(self).loose_encoded() && !(old(self).ia32_efer.encoding.0 & 0x10000 != 0 && (entry_ctls & crate::regs::ENTRY_LOAD_EFER != 0)) ==> final(hw).spec_field(GUEST_STATE_IA32_EFER as u64) == old(hw).spec_field(GUEST_STATE_IA32_EFER as u64),
            old(self).loose_encoded() && old(self).ia32_perf.encoding.0 & 0x10000 != 0 && (entry_ctls & crate::regs::ENTRY_LOAD_PERF != 0) ==> final(hw).spec_field(GUEST_STATE_IA32_PERF_GLOBAL as u64) == Some(old(self).ia32_perf.value),
            old(self).loose_encoded() && !(old(self).ia32_perf.encoding.0 & 0x10000 != 0 && (entry_ctls & crate::regs::ENTRY_LOAD_PERF != 0)) ==> final(hw).spec_field(GUEST_STATE_IA32_PERF_GLOBAL as u64) == old(hw).spec_field(GUEST_STATE_IA32_PERF_GLOBAL as u64),
            old(self).loose_encoded() && old(self).pdpe_0.encoding.0 & 0x10000 != 0 ==> final(hw).spec_field(GUEST_STATE_PDPTE0 as u64) == Some(old(self).pdpe_0.value),
            old(self).loose_encoded() && !(old(self).pdpe_0.encoding.0 & 0x10000 != 0) ==> final(hw).spec_field(GUEST_STATE_PDPTE0 as u64) == old(hw).spec_field(GUEST_STATE_PDPTE0 as u64),
            old(self).loose_encoded() && old(self).pdpe_1.encoding.0 & 0x10000 != 0 ==> final(hw).spec_field(GUEST_STATE_PDPTE1 as u64) == Some(old(self).pdpe_1.value),
            old(self).loose_encoded() && !(old(self).pdpe_1.encoding.0 & 0x10000 != 0) ==> final(hw).spec_field(GUEST_STATE_PDPTE1 as u64) == old(hw).spec_field(GUEST_STATE_PDPTE1 as u64),
            old(self).loose_encoded() && old(self).pdpe_2.encoding.0 & 0x10000 != 0 ==> final(hw).spec_field(GUEST_STATE_PDPTE2 as u64) == Some(old(self).pdpe_2.value),
            old(self).loose_encoded() && !(old(self).pdpe_2.encoding.0 & 0x10000 != 0) ==> final(hw).spec_field(GUEST_STATE_PDPTE2 as u64) == old(hw).spec_field(GUEST_STATE_PDPTE2 as u64),
            old(self).loose_encoded() && old(self).pdpe_3.encoding.0 & 0x10000 != 0 ==> final(hw).spec_field(GUEST_STATE_PDPTE3 as u64) == Some(old(self).pdpe_3.value),
            old(self).loose_encoded() && !(old(self).pdpe_3.encoding.0 & 0x10000 != 0) ==> final(hw).spec_field(GUEST_STATE_PDPTE3 as u64) == old(hw).spec_field(GUEST_STATE_PDPTE3 as u64),
            old(self).loose_encoded() && old(self).es_limit.encoding.0 & 0x10000 != 0 ==> final(hw).spec_field(GUEST_STATE_ES_LIMIT as u64) == Some(old(self).es_limit.value),
            old(self).loose_encoded() && !(old(self).es_limit.encoding.0 & 0x10000 != 0) ==> final(hw).spec_field(GUEST_STATE_ES_LIMIT as u64) == old(hw).spec_field(GUEST_STATE_ES_LIMIT as u64),
            old(self).loose_encoded() && old(self).cs_limit.encoding.0 & 0x10000 != 0 ==> final(hw).spec_field(GUEST_STATE_CS_LIMIT as u64) == Some(old(self).cs_limit.value),
            old(self).loose_encoded() && !(old(self).cs_limit.encoding.0 & 0x10000 != 0) ==> final(hw).spec_field(GUEST_STATE_CS_LIMIT as u64) == old(hw).spec_field(GUEST_STATE_CS_LIMIT as u64),
            old(self).loose_encoded() && old(self).ss_limit.encoding.0 & 0x10000 != 0 ==> final(hw).spec_field(GUEST_STATE_SS_LIMIT as u64) == Some(old(self).ss_limit.value),
            old(self).loose_encoded() && !(old(self).ss_limit.encoding.0 & 0x10000 != 0) ==> final(hw).spec_field(GUEST_STATE_SS_LIMIT as u64) == old(hw).spec_field(GUEST_STATE_SS_LIMIT as u64),
            old(self).loose_encoded() && old(self).ds_limit.encoding.0 & 0x10000 != 0 ==> final(hw).spec_field(GUEST_STATE_DS_LIMIT as u64) == Some(old(self).ds_limit.value),
            old(self).loose_encoded() && !(old(self).ds_limit.encoding.0 & 0x10000 != 0) ==> final(hw).spec_field(GUEST_STATE_DS_LIMIT as u64) == old(hw).spec_field(GUEST_STATE_DS_LIMIT as u64),
            old(self).loose_encoded() && old(self).fs_limit.encoding.0 & 0x10000 != 0 ==> final(hw).spec_field(GUEST_STATE_FS_LIMIT as u64) == Some(old(self).fs_limit.value),
            old(self).loose_encoded() && !(old(self).fs_limit.encoding.0 & 0x10000 != 0) ==> final(hw).spec_field(GUEST_STATE_FS_LIMIT as u64) == old(hw).spec_field(GUEST_STATE_FS_LIMIT as u64),
            old(self).loose_encoded() && old(self).gs_limit.encoding.0 & 0x10000 != 0 ==> final(hw).spec_field(GUEST_STATE_GS_LIMIT as u64) == Some(old(self).gs_limit.value),
            old(self).loose_encoded() && !(old(self).gs_limit.encoding.0 & 0x10000 != 0) ==> final(hw).spec_field(GUEST_STATE_GS_LIMIT as u64) == old(hw).spec_field(GUEST_STATE_GS_LIMIT as u64),
            old(self).loose_encoded() && old(self).ldtr_limit.encoding.0 & 0x10000 != 0 ==> final(hw).spec_field(GUEST_STATE_LDTR_LIMIT as u64) == Some(old(self).ldtr_limit.value),
            old(self).loose_encoded() && !(old(self).ldtr_limit.encoding.0 & 0x10000 != 0) ==> final(hw).spec_field(GUEST_STATE_LDTR_LIMIT as u64) == old(hw).spec_field(GUEST_STATE_LDTR_LIMIT as u64),
            old(self).loose_encoded() && old(self).tr_limit.encoding.0 & 0x10000 != 0 ==> final(hw).spec_field(GUEST_STATE_TR_LIMIT as u64) == Some(old(self).tr_limit.value),
            old(self).loose_encoded() && !(old(self).tr_limit.encoding.0 & 0x10000 != 0) ==> final(hw).spec_field(GUEST_STATE_TR_LIMIT as u64) == old(hw).spec_field(GUEST_STATE_TR_LIMIT as u64),
            old(self).loose_encoded() && old(self).gdtr_limit.encoding.0 & 0x10000 != 0 ==> final(hw).spec_field(GUEST_STATE_GDTR_LIMIT as u64) == Some(old(self).gdtr_limit.value),
            old(self).loose_encoded() && !(old(self).gdtr_limit.encoding.0 & 0x10000 != 0) ==> final(hw).spec_field(GUEST_STATE_GDTR_LIMIT as u64) == old(hw).spec_field(GUEST_STATE_GDTR_LIMIT as u64),
            old(self).loose_encoded() && old(self).idtr_limit.encoding.0 & 0x10000 != 0 ==> final(hw).spec_field(GUEST_STATE_IDTR_LIMIT as u64) == Some(old(self).idtr_limit.value),
            old(self).loose_encoded() && !(old(self).idtr_limit.encoding.0 & 0x10000 != 0) ==> final(hw).spec_field(GUEST_STATE_IDTR_LIMIT as u64) == old(hw).spec_field(GUEST_STATE_IDTR_LIMIT as u64),
            old(self).loose_encoded() ==> (forall|k: u64| !spec_guest_key_low(k) ==> (#[trigger] final(hw).spec_field(k)) == old(hw).spec_field(k)),
            final(hw).cr2 == old(hw).cr2,
            final(hw).dr6 == old(hw).dr6,
    {
        proof {
            crate::access::lemma_mark_mask_stable();
        }
        self.cr0.flush(hw)?;
        self.cr4.flush(hw)?;
        self.es_sel.flush(hw)?;
        self.cs_sel.flush(hw)?;
        self.ss_sel.flush(hw)?;
        self.ds_sel.flush(hw)?;
        self.fs_sel.flush(hw)?;
        self.gs_sel.flush(hw)?;
        self.ldtr_sel.flush(hw)?;
        self.tr_sel.flush(hw)?;
        self.vmcs_link_ptr.flush(hw)?;
        if entry_ctls & crate::regs::ENTRY_LOAD_PAT != 0 {
            self.ia32_pat.flush(hw)?;
        }
        if entry_ctls & crate::regs::ENTRY_LOAD_EFER != 0 {
            self.ia32_efer.flush(hw)?;
        }
        if entry_ctls & crate::regs::ENTRY_LOAD_PERF != 0 {
            self.ia32_perf.flush(hw)?;
        }
        self.pdpe_0.flush(hw)?;
        self.pdpe_1.flush(hw)?;
        self.pdpe_2.flush(hw)?;
        self.pdpe_3.flush(hw)?;
        self.es_limit.flush(hw)?;
        self.cs_limit.flush(hw)?;
        self.ss_limit.flush(hw)?;
        self.ds_limit.flush(hw)?;
        self.fs_limit.flush(hw)?;
        self.gs_limit.flush(hw)?;
        self.ldtr_limit.flush(hw)?;
        self.tr_limit.flush(hw)?;
        self.gdtr_limit.flush(hw)?;
        self.idtr_limit.flush(hw)?;
        Ok(())
    }

    /// Second half of the runtime flush; CR2 and DR6 go through their
    /// registers.
    #[verifier::rlimit(100)]
    #[verifier::spinoff_prover]
    fn commit_dirty_high(&mut self, hw: &mut Region, pin_allow1: u64) -> (r: Result<(), VmmError>)
        requires
            old(self).cr2.encoding.0 & !0x8000u32 & !0x10000u32 == GUEST_STATE_CR2,
            old(self).dr6.encoding.0 & !0x8000u32 & !0x10000u32 == GUEST_STATE_DR6,
        ensures
            r is Ok,
            final(hw).revision_id == old(hw).revision_id,
            final(self).cr0 == old(self).cr0,
            final(self).cr2.value == old(self).cr2.value,
            final(self).cr2.encoding.0 & !0x8000u32 & !0x10000u32 == old(self).cr2.encoding.0 & !0x8000u32 & !0x10000u32,
            final(self).cr3.value == old(self).cr3.value,
            final(self).cr3.encoding.0 & !0x8000u32 & !0x10000u32 == old(self).cr3.encoding.0 & !0x8000u32 & !0x10000u32,
            final(self).cr4 == old(self).cr4,
            final(self).dr6.value == old(self).dr6.value,
            final(self).dr6.encoding.0 & !0x8000u32 & !0x10000u32 == old(self).dr6.encoding.0 & !0x8000u32 & !0x10000u32,
            final(self).dr7.value == old(self).dr7.value,
            final(self).dr7.encoding.0 & !0x8000u32 & !0x10000u32 == old(self).dr7.encoding.0 & !0x8000u32 & !0x10000u32,
            final(self).rsp.value == old(self).rsp.value,
            final(self).rsp.encoding.0 & !0x8000u32 & !0x10000u32 == old(self).rsp.encoding.0 & !0x8000u32 & !0x10000u32,
            final(self).rip.value == old(self).rip.value,
            final(self).rip.encoding.0 & !0x8000u32 & !0x10000u32 == old(self).rip.encoding.0 & !0x8000u32 & !0x10000u32,
            final(self).rflags.value == old(self).rflags.value,
            final(self).rflags.encoding.0 & !0x8000u32 & !0x10000u32 == old(self).rflags.encoding.0 & !0x8000u32 & !0x10000u32,
            final(self).es_sel == old(self).es_sel,
            final(self).es_base.value == old(self).es_base.value,
            final(self).es_base.encoding.0 & !0x8000u32 & !0x10000u32 == old(self).es_base.encoding.0 & !0x8000u32 & !0x10000u32,
            final(self).es_limit == old(self).es_limit,
            final(self).es_attr.value == old(self).es_attr.value,
            final(self).es_attr.encoding.0 & !0x8000u32 & !0x10000u32 == old(self).es_attr.encoding.0 & !0x8000u32 & !0x10000u32,
            final(self).cs_sel == old(self).cs_sel,
            final(self).cs_base.value == old(self).cs_base.value,
            final(self).cs_base.encoding.0 & !0x8000u32 & !0x10000u32 == old(self).cs_base.encoding.0 & !0x8000u32 & !0x10000u32,
            final(self).cs_limit == old(self).cs_limit,
            final(self).cs_attr.value == old(self).cs_attr.value,
            final(self).cs_attr.encoding.0 & !0x8000u32 & !0x10000u32 == old(self).cs_attr.encoding.0 & !0x8000u32 & !0x10000u32,
            final(self).ss_sel == old(self).ss_sel,
            final(self).ss_base.value == old(self).ss_base.value,
            final(self).ss_base.encoding.0 & !0x8000u32 & !0x10000u32 == old(self).ss_base.encoding.0 & !0x8000u32 & !0x10000u32,
            final(self).ss_limit == old(self).ss_limit,
            final(self).ss_attr.value == old(self).ss_attr.value,
            final(self).ss_attr.encoding.0 & !0x8000u32 & !0x10000u32 == old(self).ss_attr.encoding.0 & !0x8000u32 & !0x10000u32,
            final(self).ds_sel == old(self).ds_sel,
            final(self).ds_base.value == old(self).ds_base.value,
            final(self).ds_base.encoding.0 & !0x8000u32 & !0x10000u32 == old(self).ds_base.encoding.0 & !0x8000u32 & !0x10000u32,
            final(self).ds_limit == old(self).ds_limit,
            final(self).ds_attr.value == old(self).ds_attr.value,
            final(self).ds_attr.encoding.0 & !0x8000u32 & !0x10000u32 == old(self).ds_attr.encoding.0 & !0x8000u32 & !0x10000u32,
            final(self).fs_sel == old(self).fs_sel,
            final(self).fs_base.value == old(self).fs_base.value,
            final(self).fs_base.encoding.0 & !0x8000u32 & !0x10000u32 == old(self).fs_base.encoding.0 & !0x8000u32 & !0x10000u32,
            final(self).fs_limit == old(self).fs_limit,
            final(self).fs_attr.value == old(self).fs_attr.value,
            final(self).fs_attr.encoding.0 & !0x8000u32 & !0x10000u32 == old(self).fs_attr.encoding.0 & !0x8000u32 & !0x10000u32,
            final(self).gs_sel == old(self).gs_sel,
            final(self).gs_base.value == old(self).gs_base.value,
            final(self).gs_base.encoding.0 & !0x8000u32 & !0x10000u32 == old(self).gs_base.encoding.0 & !0x8000u32 & !0x10000u32,
            final(self).gs_limit == old(self).gs_limit,
            final(self).gs_attr.value == old(self).gs_attr.value,
            final(self).gs_attr.encoding.0 & !0x8000u32 & !0x10000u32 == old(self).gs_attr.encoding.0 & !0x8000u32 & !0x10000u32,
            final(self).ldtr_sel == old(self).ldtr_sel,
            final(self).ldtr_base.value == old(self).ldtr_base.value,
            final(self).ldtr_base.encoding.0 & !0x8000u32 & !0x10000u32 == old(self).ldtr_base.encoding.0 & !0x8000u32 & !0x10000u32,
            final(self).ldtr_limit == old(self).ldtr_limit,
            final(self).ldtr_attr.value == old(self).ldtr_attr.value,
            final(self).ldtr_attr.encoding.0 & !0x8000u32 & !0x10000u32 == old(self).ldtr_attr.encoding.0 & !0x8000u32 & !0x10000u32,
            final(self).tr_sel == old(self).tr_sel,
            final(self).tr_base.value == old(self).tr_base.value,
            final(self).tr_base.encoding.0 & !0x8000u32 & !0x10000u32 == old(self).tr_base.encoding.0 & !0x8000u32 & !0x10000u32,
            final(self).tr_limit == old(self).tr_limit,
            final(self).tr_attr.value == old(self).tr_attr.value,
            final(self).tr_attr.encoding.0 & !0x8000u32 & !0x10000u32 == old(self).tr_attr.encoding.0 & !0x8000u32 & !0x10000u32,
            final(self).gdtr_base.value == old(self).gdtr_base.value,
            final(self).gdtr_base.encoding.0 & !0x8000u32 & !0x10000u32 == old(self).gdtr_base.encoding.0 & !0x8000u32 & !0x10000u32,
            final(self).gdtr_limit == old(self).gdtr_limit,
            final(self).idtr_base.value == old(self).idtr_base.value,
            final(self).idtr_base.encoding.0 & !0x8000u32 & !0x10000u32 == old(self).idtr_base.encoding.0 & !0x8000u32 & !0x10000u32,
            final(self).idtr_limit == old(self).idtr_limit,
            final(self).ia32_dbgctl == old(self).ia32_dbgctl,
            final(self).ia32_sysenter_cs.value == old(self).ia32_sysenter_cs.value,
            final(self).ia32_sysenter_cs.encoding.0 & !0x8000u32 & !0x10000u32 == old(self).ia32_sysenter_cs.encoding.0 & !0x8000u32 & !0x10000u32,
            final(self).ia32_sysenter_esp.value == old(self).ia32_sysenter_esp.value,
            final(self).ia32_sysenter_esp.encoding.0 & !0x8000u32 & !0x10000u32 == old(self).ia32_sysenter_esp.encoding.0 & !0x8000u32 & !0x10000u32,
            final(self).ia32_sysenter_eip.value == old(self).ia32_sysenter_eip.value,
            final(self).ia32_sysenter_eip.encoding.0 & !0x8000u32 & !0x10000u32 == old(self).ia32_sysenter_eip.encoding.0 & !0x8000u32 & !0x10000u32,
            final(self).ia32_perf == old(self).ia32_perf,
            final(self).ia32_pat == old(self).ia32_pat,
            final(self).ia32_efer == old(self).ia32_efer,
            final(self).ia32_bndcfg == old(self).ia32_bndcfg,
            final(self).smbase.value == old(self).smbase.value,
            final(self).smbase.encoding.0 & !0x8000u32 & !0x10000u32 == old(self).smbase.encoding.0 & !0x8000u32 & !0x10000u32,
            final(self).activity.value == old(self).activity.value,
            final(self).activity.encoding.0 & !0x8000u32 & !0x10000u32 == old(self).activity.encoding.0 & !0x8000u32 & !0x10000u32,
            final(self).interrupt.value == old(self).interrupt.value,
            final(self).interrupt.encoding.0 & !0x8000u32 & !0x10000u32 == old(self).interrupt.encoding.0 & !0x8000u32 & !0x10000u32,
            final(self).pending_dbg.value == old(self).pending_dbg.value,
            final(self).pending_dbg.encoding.0 & !0x8000u32 & !0x10000u32 == old(self).pending_dbg.encoding.0 & !0x8000u32 & !0x10000u32,
            final(self).vmcs_link_ptr == old(self).vmcs_link_ptr,
            final(self).preempt_timer.value == old(self).preempt_timer.value,
            final(self).preempt_timer.encoding.0 & !0x8000u32 & !0x10000u32 == old(self).preempt_timer.encoding.0 & !0x8000u32 & !0x10000u32,
            final(self).pdpe_0 == old(self).pdpe_0,
            final(self).pdpe_1 == old(self).pdpe_1,
            final(self).pdpe_2 == old(self).pdpe_2,
            final(self).pdpe_3 == old(self).pdpe_3,
            final(self).guest_intr == old(self).guest_intr,
            final(self).pml_index == old(self).pml_index,
            old(self).loose_encoded() && old(self).es_attr.encoding.0 & 0x10000 != 0 ==> final(hw).spec_field(GUEST_STATE_ES_ACCESS_RIGHTS as u64) == Some(old(self).es_attr.value),
            old(self).loose_encoded() && !(old(self).es_attr.encoding.0 & 0x10000 != 0) ==> final(hw).spec_field(GUEST_STATE_ES_ACCESS_RIGHTS as u64) == old(hw).spec_field(GUEST_STATE_ES_ACCESS_RIGHTS as u64),
            old(self).loose_encoded() && old(self).cs_attr.encoding.0 & 0x10000 != 0 ==> final(hw).spec_field(GUEST_STATE_CS_ACCESS_RIGHTS as u64) == Some(old(self).cs_attr.value),
            old(self).loose_encoded() && !(old(self).cs_attr.encoding.0 & 0x10000 != 0) ==> final(hw).spec_field(GUEST_STATE_CS_ACCESS_RIGHTS as u64) == old(hw).spec_field(GUEST_STATE_CS_ACCESS_RIGHTS as u64),
            old(self).loose_encoded() && old(self).ss_attr.encoding.0 & 0x10000 != 0 ==> final(hw).spec_field(GUEST_STATE_SS_ACCESS_RIGHTS as u64) == Some(old(self).ss_attr.value),
            old(self).loose_encoded() && !(old(self).ss_attr.encoding.0 & 0x10000 != 0) ==> final(hw).spec_field(GUEST_STATE_SS_ACCESS_RIGHTS as u64) == old(hw).spec_field(GUEST_STATE_SS_ACCESS_RIGHTS as u64),
            old(self).loose_encoded() && old(self).ds_attr.encoding.0 & 0x10000 != 0 ==> final(hw).spec_field(GUEST_STATE_DS_ACCESS_RIGHTS as u64) == Some(old(self).ds_attr.value),
            old(self).loose_encoded() && !(old(self).ds_attr.encoding.0 & 0x10000 != 0) ==> final(hw).spec_field(GUEST_STATE_DS_ACCESS_RIGHTS as u64) == old(hw).spec_field(GUEST_STATE_DS_ACCESS_RIGHTS as u64),
            old(self).loose_encoded() && old(self).fs_attr.encoding.0 & 0x10000 != 0 ==> final(hw).spec_field(GUEST_STATE_FS_ACCESS_RIGHTS as u64) == Some(old(self).fs_attr.value),
            old(self).loose_encoded() && !(old(self).fs_attr.encoding.0 & 0x10000 != 0) ==> final(hw).spec_field(GUEST_STATE_FS_ACCESS_RIGHTS as u64) == old(hw).spec_field(GUEST_STATE_FS_ACCESS_RIGHTS as u64),
            old(self).loose_encoded() && old(self).gs_attr.encoding.0 & 0x10000 != 0 ==> final(hw).spec_field(GUEST_STATE_GS_ACCESS_RIGHTS as u64) == Some(old(self).gs_attr.value),
            old(self).loose_encoded() && !(old(self).gs_attr.encoding.0 & 0x10000 != 0) ==> final(hw).spec_field(GUEST_STATE_GS_ACCESS_RIGHTS as u64) == old(hw).spec_field(GUEST_STATE_GS_ACCESS_RIGHTS as u64),
            old(self).loose_encoded() && old(self).ldtr_attr.encoding.0 & 0x10000 != 0 ==> final(hw).spec_field(GUEST_STATE_LDTR_ACCESS_RIGHTS as u64) == Some(old(self).ldtr_attr.value),
            old(self).loose_encoded() && !(old(self).ldtr_attr.encoding.0 & 0x10000 != 0) ==> final(hw).spec_field(GUEST_STATE_LDTR_ACCESS_RIGHTS as u64) == old(hw).spec_field(GUEST_STATE_LDTR_ACCESS_RIGHTS as u64),
            old(self).loose_encoded() && old(self).tr_attr.encoding.0 & 0x10000 != 0 ==> final(hw).spec_field(GUEST_STATE_TR_ACCESS_RIGHTS as u64) == Some(old(self).tr_attr.value),
            old(self).loose_encoded() && !(old(self).tr_attr.encoding.0 & 0x10000 != 0) ==> final(hw).spec_field(GUEST_STATE_TR_ACCESS_RIGHTS as u64) == old(hw).spec_field(GUEST_STATE_TR_ACCESS_RIGHTS as u64),
            old(self).loose_encoded() && old(self).interrupt.encoding.0 & 0x10000 != 0 ==> final(hw).spec_field(GUEST_STATE_INT_STATE as u64) == Some(old(self).interrupt.value),
            old(self).loose_encoded() && !(old(self).interrupt.encoding.0 & 0x10000 != 0) ==> final(hw).spec_field(GUEST_STATE_INT_STATE as u64) == old(hw).spec_field(GUEST_STATE_INT_STATE as u64),
            old(self).loose_encoded() && old(self).activity.encoding.0 & 0x10000 != 0 ==> final(hw).spec_field(GUEST_STATE_ACTIVITY_STATE as u64) == Some(old(self).activity.value),
            old(self).loose_encoded() && !(old(self).activity.encoding.0 & 0x10000 != 0) ==> final(hw).spec_field(GUEST_STATE_ACTIVITY_STATE as u64) == old(hw).spec_field(GUEST_STATE_ACTIVITY_STATE as u64),
            old(self).loose_encoded() && old(self).smbase.encoding.0 & 0x10000 != 0 ==> final(hw).spec_field(GUEST_STATE_SMBASE as u64) == Some(old(self).smbase.value),
            old(self).loose_encoded() && !(old(self).smbase.encoding.0 & 0x10000 != 0) ==> final(hw).spec_field(GUEST_STATE_SMBASE as u64) == old(hw).spec_field(GUEST_STATE_SMBASE as u64),
            old(self).loose_encoded() && old(self).ia32_sysenter_cs.encoding.0 & 0x10000 != 0 ==> final(hw).spec_field(GUEST_STATE_IA32_SYSENTER_CS as u64) == Some(old(self).ia32_sysenter_cs.value),
            old(self).loose_encoded() && !(old(self).ia32_sysenter_cs.encoding.0 & 0x10000 != 0) ==> final(hw).spec_field(GUEST_STATE_IA32_SYSENTER_CS as u64) == old(hw).spec_field(GUEST_STATE_IA32_SYSENTER_CS as u64),
            old(self).loose_encoded() && old(self).preempt_timer.encoding.0 & 0x10000 != 0 && (pin_allow1 & crate::regs::PIN_PREEMPT != 0) ==> final(hw).spec_field(GUEST_STATE_PREEMPT_TIMER as u64) == Some(old(self).preempt_timer.value),
            old(self).loose_encoded() && !(old(self).preempt_timer.encoding.0 & 0x10000 != 0 && (pin_allow1 & crate::regs::PIN_PREEMPT != 0)) ==> final(hw).spec_field(GUEST_STATE_PREEMPT_TIMER as u64) == old(hw).spec_field(GUEST_STATE_PREEMPT_TIMER as u64),
            old(self).loose_encoded() && old(self).cr3.encoding.0 & 0x10000 != 0 ==> final(hw).spec_field(GUEST_STATE_CR3 as u64) == Some(old(self).cr3.value),
            old(self).loose_encoded() && !(old(self).cr3.encoding.0 & 0x10000 != 0) ==> final(hw).spec_field(GUEST_STATE_CR3 as u64) == old(hw).spec_field(GUEST_STATE_CR3 as u64),
            old(self).loose_encoded() && old(self).es_base.encoding.0 & 0x10000 != 0 ==> final(hw).spec_field(GUEST_STATE_ES_BASE as u64) == Some(old(self).es_base.value),
            old(self).loose_encoded() && !(old(self).es_base.encoding.0 & 0x10000 != 0) ==> final(hw).spec_field(GUEST_STATE_ES_BASE as u64) == old(hw).spec_field(GUEST_STATE_ES_BASE as u64),
            old(self).loose_encoded() && old(self).cs_base.encoding.0 & 0x10000 != 0 ==> final(hw).spec_field(GUEST_STATE_CS_BASE as u64) == Some(old(self).cs_base.value),
            old(self).loose_encoded() && !(old(self).cs_base.encoding.0 & 0x10000 != 0) ==> final(hw).spec_field(GUEST_STATE_CS_BASE as u64) == old(hw).spec_field(GUEST_STATE_CS_BASE as u64),
            old(self).loose_encoded() && old(self).ss_base.encoding.0 & 0x10000 != 0 ==> final(hw).spec_field(GUEST_STATE_SS_BASE as u64) == Some(old(self).ss_base.value),
            old(self).loose_encoded() && !(old(self).ss_base.encoding.0 & 0x10000 != 0) ==> final(hw).spec_field(GUEST_STATE_SS_BASE as u64) == old(hw).spec_field(GUEST_STATE_SS_BASE as u64),
            old(self).loose_encoded() && old(self).ds_base.encoding.0 & 0x10000 != 0 ==> final(hw).spec_field(GUEST_STATE_DS_BASE as u64) == Some(old(self).ds_base.value),
            old(self).loose_encoded() && !(old(self).ds_base.encoding.0 & 0x10000 != 0) ==> final(hw).spec_field(GUEST_STATE_DS_BASE as u64) == old(hw).spec_field(GUEST_STATE_DS_BASE as u64),
            old(self).loose_encoded() && old(self).fs_base.encoding.0 & 0x10000 != 0 ==> final(hw).spec_field(GUEST_STATE_FS_BASE as u64) == Some(old(self).fs_base.value),
            old(self).loose_encoded() && !(old(self).fs_base.encoding.0 & 0x10000 != 0) ==> final(hw).spec_field(GUEST_STATE_FS_BASE as u64) == old(hw).spec_field(GUEST_STATE_FS_BASE as u64),
            old(self).loose_encoded() && old(self).gs_base.encoding.0 & 0x10000 != 0 ==> final(hw).spec_field(GUEST_STATE_GS_BASE as u64) == Some(old(self).gs_base.value),
            old(self).loose_encoded() && !(old(self).gs_base.encoding.0 & 0x10000 != 0) ==> final(hw).spec_field(GUEST_STATE_GS_BASE as u64) == old(hw).spec_field(GUEST_STATE_GS_BASE as u64),
            old(self).loose_encoded() && old(self).tr_base.encoding.0 & 0x10000 != 0 ==> final(hw).spec_field(GUEST_STATE_TR_BASE as u64) == Some(old(self).tr_base.value),
            old(self).loose_encoded() && !(old(self).tr_base.encoding.0 & 0x10000 != 0) ==> final(hw).spec_field(GUEST_STATE_TR_BASE as u64) == old(hw).spec_field(GUEST_STATE_TR_BASE as u64),
            old(self).loose_encoded() && old(self).ldtr_base.encoding.0 & 0x10000 != 0 ==> final(hw).spec_field(GUEST_STATE_LDTR_BASE as u64) == Some(old(self).ldtr_base.value),
            old(self).loose_encoded() && !(old(self).ldtr_base.encoding.0 & 0x10000 != 0) ==> final(hw).spec_field(GUEST_STATE_LDTR_BASE as u64) == old(hw).spec_field(GUEST_STATE_LDTR_BASE as u64),
            old(self).loose_encoded() && old(self).gdtr_base.encoding.0 & 0x10000 != 0 ==> final(hw).spec_field(GUEST_STATE_GDTR_BASE as u64) == Some(old(self).gdtr_base.value),
            old(self).loose_encoded() && !(old(self).gdtr_base.encoding.0 & 0x10000 != 0) ==> final(hw).spec_field(GUEST_STATE_GDTR_BASE as u64) == old(hw).spec_field(GUEST_STATE_GDTR_BASE as u64),
            old(self).loose_encoded() && old(self).idtr_base.encoding.0 & 0x10000 != 0 ==> final(hw).spec_field(GUEST_STATE_IDTR_BASE as u64) == Some(old(self).idtr_base.value),
            old(self).loose_encoded() && !(old(self).idtr_base.encoding.0 & 0x10000 != 0) ==> final(hw).spec_field(GUEST_STATE_IDTR_BASE as u64) == old(hw).spec_field(GUEST_STATE_IDTR_BASE as u64),
            old(self).loose_encoded() && old(self).dr7.encoding.0 & 0x10000 != 0 ==> final(hw).spec_field(GUEST_STATE_DR7 as u64) == Some(old(self).dr7.value),
            old(self).loose_encoded() && !(old(self).dr7.encoding.0 & 0x10000 != 0) ==> final(hw).spec_field(GUEST_STATE_DR7 as u64) == old(hw).spec_field(GUEST_STATE_DR7 as u64),
            old(self).loose_encoded() && old(self).rsp.encoding.0 & 0x10000 != 0 ==> final(hw).spec_field(GUEST_STATE_RSP as u64) == Some(old(self).rsp.value),
            old(self).loose_encoded() && !(old(self).rsp.encoding.0 & 0x10000 != 0) ==> final(hw).spec_field(GUEST_STATE_RSP as u64) == old(hw).spec_field(GUEST_STATE_RSP as u64),
            old(self).loose_encoded() && old(self).rip.encoding.0 & 0x10000 != 0 ==> final(hw).spec_field(GUEST_STATE_RIP as u64) == Some(old(self).rip.value),
            old(self).loose_encoded() && !(old(self).rip.encoding.0 & 0x10000 != 0) ==> final(hw).spec_field(GUEST_STATE_RIP as u64) == old(hw).spec_field(GUEST_STATE_RIP as u64),
            old(self).loose_encoded() && old(self).rflags.encoding.0 & 0x10000 != 0 ==> final(hw).spec_field(GUEST_STATE_RFLAGS as u64) == Some(old(self).rflags.value),
            old(self).loose_encoded() && !(old(self).rflags.encoding.0 & 0x10000 != 0) ==> final(hw).spec_field(GUEST_STATE_RFLAGS as u64) == old(hw).spec_field(GUEST_STATE_RFLAGS as u64),
            old(self).loose_encoded() && old(self).pending_dbg.encoding.0 & 0x10000 != 0 ==> final(hw).spec_field(GUEST_STATE_PENDING_DBG_EXCP as u64) == Some(old(self).pending_dbg.value),
            old(self).loose_encoded() && !(old(self).pending_dbg.encoding.0 & 0x10000 != 0) ==> final(hw).spec_field(GUEST_STATE_PENDING_DBG_EXCP as u64) == old(hw).spec_field(GUEST_STATE_PENDING_DBG_EXCP as u64),
            old(self).loose_encoded() && old(self).ia32_sysenter_esp.encoding.0 & 0x10000 != 0 ==> final(hw).spec_field(GUEST_STATE_IA32_SYSENTER_ESP as u64) == Some(old(self).ia32_sysenter_esp.value),
            old(self).loose_encoded() && !(old(self).ia32_sysenter_esp.encoding.0 & 0x10000 != 0) ==> final(hw).spec_field(GUEST_STATE_IA32_SYSENTER_ESP as u64) == old(hw).spec_field(GUEST_STATE_IA32_SYSENTER_ESP as u64),
            old(self).loose_encoded() && old(self).ia32_sysenter_eip.encoding.0 & 0x10000 != 0 ==> final(hw).spec_field(GUEST_STATE_IA32_SYSENTER_EIP as u64) == Some(old(self).ia32_sysenter_eip.value),
            old(self).loose_encoded() && !(old(self).ia32_sysenter_eip.encoding.0 & 0x10000 != 0) ==> final(hw).spec_field(GUEST_STATE_IA32_SYSENTER_EIP as u64) == old(hw).spec_field(GUEST_STATE_IA32_SYSENTER_EIP as u64),
            old(self).loose_encoded() && old(self).cr2.encoding.0 & 0x10000 != 0 ==> final(hw).cr2 == old(self).cr2.value,
            old(self).cr2.encoding.0 & 0x10000 == 0 ==> final(hw).cr2 == old(hw).cr2,
            old(self).loose_encoded() && old(self).dr6.encoding.0 & 0x10000 != 0 ==> final(hw).dr6 == old(self).dr6.value,
            old(self).dr6.encoding.0 & 0x10000 == 0 ==> final(hw).dr6 == old(hw).dr6,
            old(self).loose_encoded() ==> (forall|k: u64| !spec_guest_key_high(k) ==> (#[trigger] final(hw).spec_field(k)) == old(hw).spec_field(k)),
    {
        proof {
            crate::access::lemma_mark_mask_stable();
        }
        self.es_attr.flush(hw)?;
        self.cs_attr.flush(hw)?;
        self.ss_attr.flush(hw)?;
        self.ds_attr.flush(hw)?;
        self.fs_attr.flush(hw)?;
        self.gs_attr.flush(hw)?;
        self.ldtr_attr.flush(hw)?;
        self.tr_attr.flush(hw)?;
        self.interrupt.flush(hw)?;
        self.activity.flush(hw)?;
        self.smbase.flush(hw)?;
        self.ia32_sysenter_cs.flush(hw)?;
        if pin_allow1 & crate::regs::PIN_PREEMPT != 0 {
            self.preempt_timer.flush(hw)?;
        }
        self.cr3.flush(hw)?;
        self.es_base.flush(hw)?;
        self.cs_base.flush(hw)?;
        self.ss_base.flush(hw)?;
        self.ds_base.flush(hw)?;
        self.fs_base.flush(hw)?;
        self.gs_base.flush(hw)?;
        self.tr_base.flush(hw)?;
        self.ldtr_base.flush(hw)?;
        self.gdtr_base.flush(hw)?;
        self.idtr_base.flush(hw)?;
        self.dr7.flush(hw)?;
        self.rsp.flush(hw)?;
        self.rip.flush(hw)?;
        self.rflags.flush(hw)?;
        self.pending_dbg.flush(hw)?;
        self.ia32_sysenter_esp.flush(hw)?;
        self.ia32_sysenter_eip.flush(hw)?;
        self.cr2.flush(hw)?;
        self.dr6.flush(hw)?;
        Ok(())
    }
}

impl Guest {
    /// Every field's encoding, with the mirror marks ignored, is its
    /// assigned constant: the shape the mirror has at runtime after the
    /// encode phase.
    pub open spec fn loose_encoded(&self) -> bool {
        &&& self.cr0.encoding.0 & !0x8000u32 & !0x10000u32 == GUEST_STATE_CR0
        &&& self.cr2.encoding.0 & !0x8000u32 & !0x10000u32 == GUEST_STATE_CR2
        &&& self.cr3.encoding.0 & !0x8000u32 & !0x10000u32 == GUEST_STATE_CR3
        &&& self.cr4.encoding.0 & !0x8000u32 & !0x10000u32 == GUEST_STATE_CR4
        &&& self.dr6.encoding.0 & !0x8000u32 & !0x10000u32 == GUEST_STATE_DR6
        &&& self.dr7.encoding.0 & !0x8000u32 & !0x10000u32 == GUEST_STATE_DR7
        &&& self.rsp.encoding.0 & !0x8000u32 & !0x10000u32 == GUEST_STATE_RSP
        &&& self.rip.encoding.0 & !0x8000u32 & !0x10000u32 == GUEST_STATE_RIP
        &&& self.rflags.encoding.0 & !0x8000u32 & !0x10000u32 == GUEST_STATE_RFLAGS
        &&& self.es_sel.encoding.0 & !0x8000u32 & !0x10000u32 == GUEST_STATE_ES_SEL
        &&& self.es_base.encoding.0 & !0x8000u32 & !0x10000u32 == GUEST_STATE_ES_BASE
        &&& self.es_limit.encoding.0 & !0x8000u32 & !0x10000u32 == GUEST_STATE_ES_LIMIT
        &&& self.es_attr.encoding.0 & !0x8000u32 & !0x10000u32 == GUEST_STATE_ES_ACCESS_RIGHTS
        &&& self.cs_sel.encoding.0 & !0x8000u32 & !0x10000u32 == GUEST_STATE_CS_SEL
        &&& self.cs_base.encoding.0 & !0x8000u32 & !0x10000u32 == GUEST_STATE_CS_BASE
        &&& self.cs_limit.encoding.0 & !0x8000u32 & !0x10000u32 == GUEST_STATE_CS_LIMIT
        &&& self.cs_attr.encoding.0 & !0x8000u32 & !0x10000u32 == GUEST_STATE_CS_ACCESS_RIGHTS
        &&& self.ss_sel.encoding.0 & !0x8000u32 & !0x10000u32 == GUEST_STATE_SS_SEL
        &&& self.ss_base.encoding.0 & !0x8000u32 & !0x10000u32 == GUEST_STATE_SS_BASE
        &&& self.ss_limit.encoding.0 & !0x8000u32 & !0x10000u32 == GUEST_STATE_SS_LIMIT
        &&& self.ss_attr.encoding.0 & !0x8000u32 & !0x10000u32 == GUEST_STATE_SS_ACCESS_RIGHTS
        &&& self.ds_sel.encoding.0 & !0x8000u32 & !0x10000u32 == GUEST_STATE_DS_SEL
        &&& self.ds_base.encoding.0 & !0x8000u32 & !0x10000u32 == GUEST_STATE_DS_BASE
        &&& self.ds_limit.encoding.0 & !0x8000u32 & !0x10000u32 == GUEST_STATE_DS_LIMIT
        &&& self.ds_attr.encoding.0 & !0x8000u32 & !0x10000u32 == GUEST_STATE_DS_ACCESS_RIGHTS
        &&& self.fs_sel.encoding.0 & !0x8000u32 & !0x10000u32 == GUEST_STATE_FS_SEL
        &&& self.fs_base.encoding.0 & !0x8000u32 & !0x10000u32 == GUEST_STATE_FS_BASE
        &&& self.fs_limit.encoding.0 & !0x8000u32 & !0x10000u32 == GUEST_STATE_FS_LIMIT
        &&& self.fs_attr.encoding.0 & !0x8000u32 & !0x10000u32 == GUEST_STATE_FS_ACCESS_RIGHTS
        &&& self.gs_sel.encoding.0 & !0x8000u32 & !0x10000u32 == GUEST_STATE_GS_SEL
        &&& self.gs_base.encoding.0 & !0x8000u32 & !0x10000u32 == GUEST_STATE_GS_BASE
        &&& self.gs_limit.encoding.0 & !0x8000u32 & !0x10000u32 == GUEST_STATE_GS_LIMIT
        &&& self.gs_attr.encoding.0 & !0x8000u32 & !0x10000u32 == GUEST_STATE_GS_ACCESS_RIGHTS
        &&& self.ldtr_sel.encoding.0 & !0x8000u32 & !0x10000u32 == GUEST_STATE_LDTR_SEL
        &&& self.ldtr_base.encoding.0 & !0x8000u32 & !0x10000u32 == GUEST_STATE_LDTR_BASE
        &&& self.ldtr_limit.encoding.0 & !0x8000u32 & !0x10000u32 == GUEST_STATE_LDTR_LIMIT
        &&& self.ldtr_attr.encoding.0 & !0x8000u32 & !0x10000u32 == GUEST_STATE_LDTR_ACCESS_RIGHTS
        &&& self.tr_sel.encoding.0 & !0x8000u32 & !0x10000u32 == GUEST_STATE_TR_SEL
        &&& self.tr_base.encoding.0 & !0x8000u32 & !0x10000u32 == GUEST_STATE_TR_BASE
        &&& self.tr_limit.encoding.0 & !0x8000u32 & !0x10000u32 == GUEST_STATE_TR_LIMIT
        &&& self.tr_attr.encoding.0 & !0x8000u32 & !0x10000u32 == GUEST_STATE_TR_ACCESS_RIGHTS
        &&& self.gdtr_base.encoding.0 & !0x8000u32 & !0x10000u32 == GUEST_STATE_GDTR_BASE
        &&& self.gdtr_limit.encoding.0 & !0x8000u32 & !0x10000u32 == GUEST_STATE_GDTR_LIMIT
        &&& self.idtr_base.encoding.0 & !0x8000u32 & !0x10000u32 == GUEST_STATE_IDTR_BASE
        &&& self.idtr_limit.encoding.0 & !0x8000u32 & !0x10000u32 == GUEST_STATE_IDTR_LIMIT
        &&& self.ia32_dbgctl.encoding.0 & !0x8000u32 & !0x10000u32 == GUEST_STATE_IA32_DBG_CTL
        &&& self.ia32_sysenter_cs.encoding.0 & !0x8000u32 & !0x10000u32 == GUEST_STATE_IA32_SYSENTER_CS
        &&& self.ia32_sysenter_esp.encoding.0 & !0x8000u32 & !0x10000u32 == GUEST_STATE_IA32_SYSENTER_ESP
        &&& self.ia32_sysenter_eip.encoding.0 & !0x8000u32 & !0x10000u32 == GUEST_STATE_IA32_SYSENTER_EIP
        &&& self.ia32_perf.encoding.0 & !0x8000u32 & !0x10000u32 == GUEST_STATE_IA32_PERF_GLOBAL
        &&& self.ia32_pat.encoding.0 & !0x8000u32 & !0x10000u32 == GUEST_STATE_IA32_PAT
        &&& self.ia32_efer.encoding.0 & !0x8000u32 & !0x10000u32 == GUEST_STATE_IA32_EFER
        &&& self.ia32_bndcfg.encoding.0 & !0x8000u32 & !0x10000u32 == GUEST_STATE_IA32_BNDCFG
        &&& self.smbase.encoding.0 & !0x8000u32 & !0x10000u32 == GUEST_STATE_SMBASE
        &&& self.activity.encoding.0 & !0x8000u32 & !0x10000u32 == GUEST_STATE_ACTIVITY_STATE
        &&& self.interrupt.encoding.0 & !0x8000u32 & !0x10000u32 == GUEST_STATE_INT_STATE
        &&& self.pending_dbg.encoding.0 & !0x8000u32 & !0x10000u32 == GUEST_STATE_PENDING_DBG_EXCP
        &&& self.vmcs_link_ptr.encoding.0 & !0x8000u32 & !0x10000u32 == GUEST_STATE_VMCS_LINK_PTR
        &&& self.preempt_timer.encoding.0 & !0x8000u32 & !0x10000u32 == GUEST_STATE_PREEMPT_TIMER
        &&& self.pdpe_0.encoding.0 & !0x8000u32 & !0x10000u32 == GUEST_STATE_PDPTE0
        &&& self.pdpe_1.encoding.0 & !0x8000u32 & !0x10000u32 == GUEST_STATE_PDPTE1
        &&& self.pdpe_2.encoding.0 & !0x8000u32 & !0x10000u32 == GUEST_STATE_PDPTE2
        &&& self.pdpe_3.encoding.0 & !0x8000u32 & !0x10000u32 == GUEST_STATE_PDPTE3
        &&& self.guest_intr.encoding.0 & !0x8000u32 & !0x10000u32 == GUEST_STATE_INTR
        &&& self.pml_index.encoding.0 & !0x8000u32 & !0x10000u32 == GUEST_STATE_PML_IDX
    }

    /// Runtime flush: write back only the guest fields marked dirty; CR2 and DR6 go through their registers.
    #[verifier::rlimit(100)]
    #[verifier::spinoff_prover]
    pub fn commit_dirty(&mut self, hw: &mut Region, fixed: &FixedRegisters, entry_ctls: u64, pin_allow1: u64) -> (r: Result<(), VmmError>)
        requires
            old(self).cr2.encoding.0 & !0x8000u32 & !0x10000u32 == GUEST_STATE_CR2,
            old(self).dr6.encoding.0 & !0x8000u32 & !0x10000u32 == GUEST_STATE_DR6,
        ensures
            r is Ok,
            final(hw).revision_id == old(hw).revision_id,
            old(self).loose_encoded() && old(self).cr0.encoding.0 & 0x10000 != 0 ==> final(hw).spec_field(GUEST_STATE_CR0 as u64) == Some(crate::regs::spec_mask(old(self).cr0.fixed, old(self).cr0.value)),
            old(self).loose_encoded() && !(old(self).cr0.encoding.0 & 0x10000 != 0) ==> final(hw).spec_field(GUEST_STATE_CR0 as u64) == old(hw).spec_field(GUEST_STATE_CR0 as u64),
            old(self).loose_encoded() && old(self).cr2.encoding.0 & 0x10000 != 0 ==> final(hw).cr2 == old(self).cr2.value,
            old(self).cr2.encoding.0 & 0x10000 == 0 ==> final(hw).cr2 == old(hw).cr2,
            old(self).loose_encoded() && old(self).cr3.encoding.0 & 0x10000 != 0 ==> final(hw).spec_field(GUEST_STATE_CR3 as u64) == Some(old(self).cr3.value),
            old(self).loose_encoded() && !(old(self).cr3.encoding.0 & 0x10000 != 0) ==> final(hw).spec_field(GUEST_STATE_CR3 as u64) == old(hw).spec_field(GUEST_STATE_CR3 as u64),
            old(self).loose_encoded() && old(self).cr4.encoding.0 & 0x10000 != 0 ==> final(hw).spec_field(GUEST_STATE_CR4 as u64) == Some(crate::regs::spec_mask(old(self).cr4.fixed, old(self).cr4.value)),
            old(self).loose_encoded() && !(old(self).cr4.encoding.0 & 0x10000 != 0) ==> final(hw).spec_field(GUEST_STATE_CR4 as u64) == old(hw).spec_field(GUEST_STATE_CR4 as u64),
            old(self).loose_encoded() && old(self).dr6.encoding.0 & 0x10000 != 0 ==> final(hw).dr6 == old(self).dr6.value,
            old(self).dr6.encoding.0 & 0x10000 == 0 ==> final(hw).dr6 == old(hw).dr6,
            old(self).loose_encoded() && old(self).dr7.encoding.0 & 0x10000 != 0 ==> final(hw).spec_field(GUEST_STATE_DR7 as u64) == Some(old(self).dr7.value),
            old(self).loose_encoded() && !(old(self).dr7.encoding.0 & 0x10000 != 0) ==> final(hw).spec_field(GUEST_STATE_DR7 as u64) == old(hw).spec_field(GUEST_STATE_DR7 as u64),
            old(self).loose_encoded() && old(self).rsp.encoding.0 & 0x10000 != 0 ==> final(hw).spec_field(GUEST_STATE_RSP as u64) == Some(old(self).rsp.value),
            old(self).loose_encoded() && !(old(self).rsp.encoding.0 & 0x10000 != 0) ==> final(hw).spec_field(GUEST_STATE_RSP as u64) == old(hw).spec_field(GUEST_STATE_RSP as u64),
            old(self).loose_encoded() && old(self).rip.encoding.0 & 0x10000 != 0 ==> final(hw).spec_field(GUEST_STATE_RIP as u64) == Some(old(self).rip.value),
            old(self).loose_encoded() && !(old(self).rip.encoding.0 & 0x10000 != 0) ==> final(hw).spec_field(GUEST_STATE_RIP as u64) == old(hw).spec_field(GUEST_STATE_RIP as u64),
            old(self).loose_encoded() && old(self).rflags.encoding.0 & 0x10000 != 0 ==> final(hw).spec_field(GUEST_STATE_RFLAGS as u64) == Some(old(self).rflags.value),
            old(self).loose_encoded() && !(old(self).rflags.encoding.0 & 0x10000 != 0) ==> final(hw).spec_field(GUEST_STATE_RFLAGS as u64) == old(hw).spec_field(GUEST_STATE_RFLAGS as u64),
            old(self).loose_encoded() && old(self).es_sel.encoding.0 & 0x10000 != 0 ==> final(hw).spec_field(GUEST_STATE_ES_SEL as u64) == Some(old(self).es_sel.value),
            old(self).loose_encoded() && !(old(self).es_sel.encoding.0 & 0x10000 != 0) ==> final(hw).spec_field(GUEST_STATE_ES_SEL as u64) == old(hw).spec_field(GUEST_STATE_ES_SEL as u64),
            old(self).loose_encoded() && old(self).es_base.encoding.0 & 0x10000 != 0 ==> final(hw).spec_field(GUEST_STATE_ES_BASE as u64) == Some(old(self).es_base.value),
            old(self).loose_encoded() && !(old(self).es_base.encoding.0 & 0x10000 != 0) ==> final(hw).spec_field(GUEST_STATE_ES_BASE as u64) == old(hw).spec_field(GUEST_STATE_ES_BASE as u64),
            old(self).loose_encoded() && old(self).es_limit.encoding.0 & 0x10000 != 0 ==> final(hw).spec_field(GUEST_STATE_ES_LIMIT as u64) == Some(old(self).es_limit.value),
            old(self).loose_encoded() && !(old(self).es_limit.encoding.0 & 0x10000 != 0) ==> final(hw).spec_field(GUEST_STATE_ES_LIMIT as u64) == old(hw).spec_field(GUEST_STATE_ES_LIMIT as u64),
            old(self).loose_encoded() && old(self).es_attr.encoding.0 & 0x10000 != 0 ==> final(hw).spec_field(GUEST_STATE_ES_ACCESS_RIGHTS as u64) == Some(old(self).es_attr.value),
            old(self).loose_encoded() && !(old(self).es_attr.encoding.0 & 0x10000 != 0) ==> final(hw).spec_field(GUEST_STATE_ES_ACCESS_RIGHTS as u64) == old(hw).spec_field(GUEST_STATE_ES_ACCESS_RIGHTS as u64),
            old(self).loose_encoded() && old(self).cs_sel.encoding.0 & 0x10000 != 0 ==> final(hw).spec_field(GUEST_STATE_CS_SEL as u64) == Some(old(self).cs_sel.value),
            old(self).loose_encoded() && !(old(self).cs_sel.encoding.0 & 0x10000 != 0) ==> final(hw).spec_field(GUEST_STATE_CS_SEL as u64) == old(hw).spec_field(GUEST_STATE_CS_SEL as u64),
            old(self).loose_encoded() && old(self).cs_base.encoding.0 & 0x10000 != 0 ==> final(hw).spec_field(GUEST_STATE_CS_BASE as u64) == Some(old(self).cs_base.value),
            old(self).loose_encoded() && !(old(self).cs_base.encoding.0 & 0x10000 != 0) ==> final(hw).spec_field(GUEST_STATE_CS_BASE as u64) == old(hw).spec_field(GUEST_STATE_CS_BASE as u64),
            old(self).loose_encoded() && old(self).cs_limit.encoding.0 & 0x10000 != 0 ==> final(hw).spec_field(GUEST_STATE_CS_LIMIT as u64) == Some(old(self).cs_limit.value),
            old(self).loose_encoded() && !(old(self).cs_limit.encoding.0 & 0x10000 != 0) ==> final(hw).spec_field(GUEST_STATE_CS_LIMIT as u64) == old(hw).spec_field(GUEST_STATE_CS_LIMIT as u64),
            old(self).loose_encoded() && old(self).cs_attr.encoding.0 & 0x10000 != 0 ==> final(hw).spec_field(GUEST_STATE_CS_ACCESS_RIGHTS as u64) == Some(old(self).cs_attr.value),
            old(self).loose_encoded() && !(old(self).cs_attr.encoding.0 & 0x10000 != 0) ==> final(hw).spec_field(GUEST_STATE_CS_ACCESS_RIGHTS as u64) == old(hw).spec_field(GUEST_STATE_CS_ACCESS_RIGHTS as u64),
            old(self).loose_encoded() && old(self).ss_sel.encoding.0 & 0x10000 != 0 ==> final(hw).spec_field(GUEST_STATE_SS_SEL as u64) == Some(old(self).ss_sel.value),
            old(self).loose_encoded() && !(old(self).ss_sel.encoding.0 & 0x10000 != 0) ==> final(hw).spec_field(GUEST_STATE_SS_SEL as u64) == old(hw).spec_field(GUEST_STATE_SS_SEL as u64),
            old(self).loose_encoded() && old(self).ss_base.encoding.0 & 0x10000 != 0 ==> final(hw).spec_field(GUEST_STATE_SS_BASE as u64) == Some(old(self).ss_base.value),
            old(self).loose_encoded() && !(old(self).ss_base.encoding.0 & 0x10000 != 0) ==> final(hw).spec_field(GUEST_STATE_SS_BASE as u64) == old(hw).spec_field(GUEST_STATE_SS_BASE as u64),
            old(self).loose_encoded() && old(self).ss_limit.encoding.0 & 0x10000 != 0 ==> final(hw).spec_field(GUEST_STATE_SS_LIMIT as u64) == Some(old(self).ss_limit.value),
            old(self).loose_encoded() && !(old(self).ss_limit.encoding.0 & 0x10000 != 0) ==> final(hw).spec_field(GUEST_STATE_SS_LIMIT as u64) == old(hw).spec_field(GUEST_STATE_SS_LIMIT as u64),
            old(self).loose_encoded() && old(self).ss_attr.encoding.0 & 0x10000 != 0 ==> final(hw).spec_field(GUEST_STATE_SS_ACCESS_RIGHTS as u64) == Some(old(self).ss_attr.value),
            old(self).loose_encoded() && !(old(self).ss_attr.encoding.0 & 0x10000 != 0) ==> final(hw).spec_field(GUEST_STATE_SS_ACCESS_RIGHTS as u64) == old(hw).spec_field(GUEST_STATE_SS_ACCESS_RIGHTS as u64),
            old(self).loose_encoded() && old(self).ds_sel.encoding.0 & 0x10000 != 0 ==> final(hw).spec_field(GUEST_STATE_DS_SEL as u64) == Some(old(self).ds_sel.value),
            old(self).loose_encoded() && !(old(self).ds_sel.encoding.0 & 0x10000 != 0) ==> final(hw).spec_field(GUEST_STATE_DS_SEL as u64) == old(hw).spec_field(GUEST_STATE_DS_SEL as u64),
            old(self).loose_encoded() && old(self).ds_base.encoding.0 & 0x10000 != 0 ==> final(hw).spec_field(GUEST_STATE_DS_BASE as u64) == Some(old(self).ds_base.value),
            old(self).loose_encoded() && !(old(self).ds_base.encoding.0 & 0x10000 != 0) ==> final(hw).spec_field(GUEST_STATE_DS_BASE as u64) == old(hw).spec_field(GUEST_STATE_DS_BASE as u64),
            old(self).loose_encoded() && old(self).ds_limit.encoding.0 & 0x10000 != 0 ==> final(hw).spec_field(GUEST_STATE_DS_LIMIT as u64) == Some(old(self).ds_limit.value),
            old(self).loose_encoded() && !(old(self).ds_limit.encoding.0 & 0x10000 != 0) ==> final(hw).spec_field(GUEST_STATE_DS_LIMIT as u64) == old(hw).spec_field(GUEST_STATE_DS_LIMIT as u64),
            old(self).loose_encoded() && old(self).ds_attr.encoding.0 & 0x10000 != 0 ==> final(hw).spec_field(GUEST_STATE_DS_ACCESS_RIGHTS as u64) == Some(old(self).ds_attr.value),
            old(self).loose_encoded() && !(old(self).ds_attr.encoding.0 & 0x10000 != 0) ==> final(hw).spec_field(GUEST_STATE_DS_ACCESS_RIGHTS as u64) == old(hw).spec_field(GUEST_STATE_DS_ACCESS_RIGHTS as u64),
            old(self).loose_encoded() && old(self).fs_sel.encoding.0 & 0x10000 != 0 ==> final(hw).spec_field(GUEST_STATE_FS_SEL as u64) == Some(old(self).fs_sel.value),
            old(self).loose_encoded() && !(old(self).fs_sel.encoding.0 & 0x10000 != 0) ==> final(hw).spec_field(GUEST_STATE_FS_SEL as u64) == old(hw).spec_field(GUEST_STATE_FS_SEL as u64),
            old(self).loose_encoded() && old(self).fs_base.encoding.0 & 0x10000 != 0 ==> final(hw).spec_field(GUEST_STATE_FS_BASE as u64) == Some(old(self).fs_base.value),
            old(self).loose_encoded() && !(old(self).fs_base.encoding.0 & 0x10000 != 0) ==> final(hw).spec_field(GUEST_STATE_FS_BASE as u64) == old(hw).spec_field(GUEST_STATE_FS_BASE as u64),
            old(self).loose_encoded() && old(self).fs_limit.encoding.0 & 0x10000 != 0 ==> final(hw).spec_field(GUEST_STATE_FS_LIMIT as u64) == Some(old(self).fs_limit.value),
            old(self).loose_encoded() && !(old(self).fs_limit.encoding.0 & 0x10000 != 0) ==> final(hw).spec_field(GUEST_STATE_FS_LIMIT as u64) == old(hw).spec_field(GUEST_STATE_FS_LIMIT as u64),
            old(self).loose_encoded() && old(self).fs_attr.encoding.0 & 0x10000 != 0 ==> final(hw).spec_field(GUEST_STATE_FS_ACCESS_RIGHTS as u64) == Some(old(self).fs_attr.value),
            old(self).loose_encoded() && !(old(self).fs_attr.encoding.0 & 0x10000 != 0) ==> final(hw).spec_field(GUEST_STATE_FS_ACCESS_RIGHTS as u64) == old(hw).spec_field(GUEST_STATE_FS_ACCESS_RIGHTS as u64),
            old(self).loose_encoded() && old(self).gs_sel.encoding.0 & 0x10000 != 0 ==> final(hw).spec_field(GUEST_STATE_GS_SEL as u64) == Some(old(self).gs_sel.value),
            old(self).loose_encoded() && !(old(self).gs_sel.encoding.0 & 0x10000 != 0) ==> final(hw).spec_field(GUEST_STATE_GS_SEL as u64) == old(hw).spec_field(GUEST_STATE_GS_SEL as u64),
            old(self).loose_encoded() && old(self).gs_base.encoding.0 & 0x10000 != 0 ==> final(hw).spec_field(GUEST_STATE_GS_BASE as u64) == Some(old(self).gs_base.value),
            old(self).loose_encoded() && !(old(self).gs_base.encoding.0 & 0x10000 != 0) ==> final(hw).spec_field(GUEST_STATE_GS_BASE as u64) == old(hw).spec_field(GUEST_STATE_GS_BASE as u64),
            old(self).loose_encoded() && old(self).gs_limit.encoding.0 & 0x10000 != 0 ==> final(hw).spec_field(GUEST_STATE_GS_LIMIT as u64) == Some(old(self).gs_limit.value),
            old(self).loose_encoded() && !(old(self).gs_limit.encoding.0 & 0x10000 != 0) ==> final(hw).spec_field(GUEST_STATE_GS_LIMIT as u64) == old(hw).spec_field(GUEST_STATE_GS_LIMIT as u64),
            old(self).loose_encoded() && old(self).gs_attr.encoding.0 & 0x10000 != 0 ==> final(hw).spec_field(GUEST_STATE_GS_ACCESS_RIGHTS as u64) == Some(old(self).gs_attr.value),
            old(self).loose_encoded() && !(old(self).gs_attr.encoding.0 & 0x10000 != 0) ==> final(hw).spec_field(GUEST_STATE_GS_ACCESS_RIGHTS as u64) == old(hw).spec_field(GUEST_STATE_GS_ACCESS_RIGHTS as u64),
            old(self).loose_encoded() && old(self).ldtr_sel.encoding.0 & 0x10000 != 0 ==> final(hw).spec_field(GUEST_STATE_LDTR_SEL as u64) == Some(old(self).ldtr_sel.value),
            old(self).loose_encoded() && !(old(self).ldtr_sel.encoding.0 & 0x10000 != 0) ==> final(hw).spec_field(GUEST_STATE_LDTR_SEL as u64) == old(hw).spec_field(GUEST_STATE_LDTR_SEL as u64),
            old(self).loose_encoded() && old(self).ldtr_base.encoding.0 & 0x10000 != 0 ==> final(hw).spec_field(GUEST_STATE_LDTR_BASE as u64) == Some(old(self).ldtr_base.value),
            old(self).loose_encoded() && !(old(self).ldtr_base.encoding.0 & 0x10000 != 0) ==> final(hw).spec_field(GUEST_STATE_LDTR_BASE as u64) == old(hw).spec_field(GUEST_STATE_LDTR_BASE as u64),
            old(self).loose_encoded() && old(self).ldtr_limit.encoding.0 & 0x10000 != 0 ==> final(hw).spec_field(GUEST_STATE_LDTR_LIMIT as u64) == Some(old(self).ldtr_limit.value),
            old(self).loose_encoded() && !(old(self).ldtr_limit.encoding.0 & 0x10000 != 0) ==> final(hw).spec_field(GUEST_STATE_LDTR_LIMIT as u64) == old(hw).spec_field(GUEST_STATE_LDTR_LIMIT as u64),
            old(self).loose_encoded() && old(self).ldtr_attr.encoding.0 & 0x10000 != 0 ==> final(hw).spec_field(GUEST_STATE_LDTR_ACCESS_RIGHTS as u64) == Some(old(self).ldtr_attr.value),
            old(self).loose_encoded() && !(old(self).ldtr_attr.encoding.0 & 0x10000 != 0) ==> final(hw).spec_field(GUEST_STATE_LDTR_ACCESS_RIGHTS as u64) == old(hw).spec_field(GUEST_STATE_LDTR_ACCESS_RIGHTS as u64),
            old(self).loose_encoded() && old(self).tr_sel.encoding.0 & 0x10000 != 0 ==> final(hw).spec_field(GUEST_STATE_TR_SEL as u64) == Some(old(self).tr_sel.value),
            old(self).loose_encoded() && !(old(self).tr_sel.encoding.0 & 0x10000 != 0) ==> final(hw).spec_field(GUEST_STATE_TR_SEL as u64) == old(hw).spec_field(GUEST_STATE_TR_SEL as u64),
            old(self).loose_encoded() && old(self).tr_base.encoding.0 & 0x10000 != 0 ==> final(hw).spec_field(GUEST_STATE_TR_BASE as u64) == Some(old(self).tr_base.value),
            old(self).loose_encoded() && !(old(self).tr_base.encoding.0 & 0x10000 != 0) ==> final(hw).spec_field(GUEST_STATE_TR_BASE as u64) == old(hw).spec_field(GUEST_STATE_TR_BASE as u64),
            old(self).loose_encoded() && old(self).tr_limit.encoding.0 & 0x10000 != 0 ==> final(hw).spec_field(GUEST_STATE_TR_LIMIT as u64) == Some(old(self).tr_limit.value),
            old(self).loose_encoded() && !(old(self).tr_limit.encoding.0 & 0x10000 != 0) ==> final(hw).spec_field(GUEST_STATE_TR_LIMIT as u64) == old(hw).spec_field(GUEST_STATE_TR_LIMIT as u64),
            old(self).loose_encoded() && old(self).tr_attr.encoding.0 & 0x10000 != 0 ==> final(hw).spec_field(GUEST_STATE_TR_ACCESS_RIGHTS as u64) == Some(old(self).tr_attr.value),
            old(self).loose_encoded() && !(old(self).tr_attr.encoding.0 & 0x10000 != 0) ==> final(hw).spec_field(GUEST_STATE_TR_ACCESS_RIGHTS as u64) == old(hw).spec_field(GUEST_STATE_TR_ACCESS_RIGHTS as u64),
            old(self).loose_encoded() && old(self).gdtr_base.encoding.0 & 0x10000 != 0 ==> final(hw).spec_field(GUEST_STATE_GDTR_BASE as u64) == Some(old(self).gdtr_base.value),
            old(self).loose_encoded() && !(old(self).gdtr_base.encoding.0 & 0x10000 != 0) ==> final(hw).spec_field(GUEST_STATE_GDTR_BASE as u64) == old(hw).spec_field(GUEST_STATE_GDTR_BASE as u64),
            old(self).loose_encoded() && old(self).gdtr_limit.encoding.0 & 0x10000 != 0 ==> final(hw).spec_field(GUEST_STATE_GDTR_LIMIT as u64) == Some(old(self).gdtr_limit.value),
            old(self).loose_encoded() && !(old(self).gdtr_limit.encoding.0 & 0x10000 != 0) ==> final(hw).spec_field(GUEST_STATE_GDTR_LIMIT as u64) == old(hw).spec_field(GUEST_STATE_GDTR_LIMIT as u64),
            old(self).loose_encoded() && old(self).idtr_base.encoding.0 & 0x10000 != 0 ==> final(hw).spec_field(GUEST_STATE_IDTR_BASE as u64) == Some(old(self).idtr_base.value),
            old(self).loose_encoded() && !(old(self).idtr_base.encoding.0 & 0x10000 != 0) ==> final(hw).spec_field(GUEST_STATE_IDTR_BASE as u64) == old(hw).spec_field(GUEST_STATE_IDTR_BASE as u64),
            old(self).loose_encoded() && old(self).idtr_limit.encoding.0 & 0x10000 != 0 ==> final(hw).spec_field(GUEST_STATE_IDTR_LIMIT as u64) == Some(old(self).idtr_limit.value),
            old(self).loose_encoded() && !(old(self).idtr_limit.encoding.0 & 0x10000 != 0) ==> final(hw).spec_field(GUEST_STATE_IDTR_LIMIT as u64) == old(hw).spec_field(GUEST_STATE_IDTR_LIMIT as u64),
            old(self).loose_encoded() && old(self).ia32_sysenter_cs.encoding.0 & 0x10000 != 0 ==> final(hw).spec_field(GUEST_STATE_IA32_SYSENTER_CS as u64) == Some(old(self).ia32_sysenter_cs.value),
            old(self).loose_encoded() && !(old(self).ia32_sysenter_cs.encoding.0 & 0x10000 != 0) ==> final(hw).spec_field(GUEST_STATE_IA32_SYSENTER_CS as u64) == old(hw).spec_field(GUEST_STATE_IA32_SYSENTER_CS as u64),
            old(self).loose_encoded() && old(self).ia32_sysenter_esp.encoding.0 & 0x10000 != 0 ==> final(hw).spec_field(GUEST_STATE_IA32_SYSENTER_ESP as u64) == Some(old(self).ia32_sysenter_esp.value),
            old(self).loose_encoded() && !(old(self).ia32_sysenter_esp.encoding.0 & 0x10000 != 0) ==> final(hw).spec_field(GUEST_STATE_IA32_SYSENTER_ESP as u64) == old(hw).spec_field(GUEST_STATE_IA32_SYSENTER_ESP as u64),
            old(self).loose_encoded() && old(self).ia32_sysenter_eip.encoding.0 & 0x10000 != 0 ==> final(hw).spec_field(GUEST_STATE_IA32_SYSENTER_EIP as u64) == Some(old(self).ia32_sysenter_eip.value),
            old(self).loose_encoded() && !(old(self).ia32_sysenter_eip.encoding.0 & 0x10000 != 0) ==> final(hw).spec_field(GUEST_STATE_IA32_SYSENTER_EIP as u64) == old(hw).spec_field(GUEST_STATE_IA32_SYSENTER_EIP as u64),
            old(self).loose_encoded() && old(self).ia32_perf.encoding.0 & 0x10000 != 0 && (entry_ctls & crate::regs::ENTRY_LOAD_PERF != 0) ==> final(hw).spec_field(GUEST_STATE_IA32_PERF_GLOBAL as u64) == Some(old(self).ia32_perf.value),
            old(self).loose_encoded() && !(old(self).ia32_perf.encoding.0 & 0x10000 != 0 && (entry_ctls & crate::regs::ENTRY_LOAD_PERF != 0)) ==> final(hw).spec_field(GUEST_STATE_IA32_PERF_GLOBAL as u64) == old(hw).spec_field(GUEST_STATE_IA32_PERF_GLOBAL as u64),
            old(self).loose_encoded() && old(self).ia32_pat.encoding.0 & 0x10000 != 0 && (entry_ctls & crate::regs::ENTRY_LOAD_PAT != 0) ==> final(hw).spec_field(GUEST_STATE_IA32_PAT as u64) == Some(old(self).ia32_pat.value),
            old(self).loose_encoded() && !(old(self).ia32_pat.encoding.0 & 0x10000 != 0 && (entry_ctls & crate::regs::ENTRY_LOAD_PAT != 0)) ==> final(hw).spec_field(GUEST_STATE_IA32_PAT as u64) == old(hw).spec_field(GUEST_STATE_IA32_PAT as u64),
            old(self).loose_encoded() && old(self).ia32_efer.encoding.0 & 0x10000 != 0 && (entry_ctls & crate::regs::ENTRY_LOAD_EFER != 0) ==> final(hw).spec_field(GUEST_STATE_IA32_EFER as u64) == Some(old(self).ia32_efer.value),
            old(self).loose_encoded() && !(old(self).ia32_efer.encoding.0 & 0x10000 != 0 && (entry_ctls & crate::regs::ENTRY_LOAD_EFER != 0)) ==> final(hw).spec_field(GUEST_STATE_IA32_EFER as u64) == old(hw).spec_field(GUEST_STATE_IA32_EFER as u64),
            old(self).loose_encoded() && old(self).smbase.encoding.0 & 0x10000 != 0 ==> final(hw).spec_field(GUEST_STATE_SMBASE as u64) == Some(old(self).smbase.value),
            old(self).loose_encoded() && !(old(self).smbase.encoding.0 & 0x10000 != 0) ==> final(hw).spec_field(GUEST_STATE_SMBASE as u64) == old(hw).spec_field(GUEST_STATE_SMBASE as u64),
            old(self).loose_encoded() && old(self).activity.encoding.0 & 0x10000 != 0 ==> final(hw).spec_field(GUEST_STATE_ACTIVITY_STATE as u64) == Some(old(self).activity.value),
            old(self).loose_encoded() && !(old(self).activity.encoding.0 & 0x10000 != 0) ==> final(hw).spec_field(GUEST_STATE_ACTIVITY_STATE as u64) == old(hw).spec_field(GUEST_STATE_ACTIVITY_STATE as u64),
            old(self).loose_encoded() && old(self).interrupt.encoding.0 & 0x10000 != 0 ==> final(hw).spec_field(GUEST_STATE_INT_STATE as u64) == Some(old(self).interrupt.value),
            old(self).loose_encoded() && !(old(self).interrupt.encoding.0 & 0x10000 != 0) ==> final(hw).spec_field(GUEST_STATE_INT_STATE as u64) == old(hw).spec_field(GUEST_STATE_INT_STATE as u64),
            old(self).loose_encoded() && old(self).pending_dbg.encoding.0 & 0x10000 != 0 ==> final(hw).spec_field(GUEST_STATE_PENDING_DBG_EXCP as u64) == Some(old(self).pending_dbg.value),
            old(self).loose_encoded() && !(old(self).pending_dbg.encoding.0 & 0x10000 != 0) ==> final(hw).spec_field(GUEST_STATE_PENDING_DBG_EXCP as u64) == old(hw).spec_field(GUEST_STATE_PENDING_DBG_EXCP as u64),
            old(self).loose_encoded() && old(self).vmcs_link_ptr.encoding.0 & 0x10000 != 0 ==> final(hw).spec_field(GUEST_STATE_VMCS_LINK_PTR as u64) == Some(old(self).vmcs_link_ptr.value),
            old(self).loose_encoded() && !(old(self).vmcs_link_ptr.encoding.0 & 0x10000 != 0) ==> final(hw).spec_field(GUEST_STATE_VMCS_LINK_PTR as u64) == old(hw).spec_field(GUEST_STATE_VMCS_LINK_PTR as u64),
            old(self).loose_encoded() && old(self).preempt_timer.encoding.0 & 0x10000 != 0 && (pin_allow1 & crate::regs::PIN_PREEMPT != 0) ==> final(hw).spec_field(GUEST_STATE_PREEMPT_TIMER as u64) == Some(old(self).preempt_timer.value),
            old(self).loose_encoded() && !(old(self).preempt_timer.encoding.0 & 0x10000 != 0 && (pin_allow1 & crate::regs::PIN_PREEMPT != 0)) ==> final(hw).spec_field(GUEST_STATE_PREEMPT_TIMER as u64) == old(hw).spec_field(GUEST_STATE_PREEMPT_TIMER as u64),
            old(self).loose_encoded() && old(self).pdpe_0.encoding.0 & 0x10000 != 0 ==> final(hw).spec_field(GUEST_STATE_PDPTE0 as u64) == Some(old(self).pdpe_0.value),
            old(self).loose_encoded() && !(old(self).pdpe_0.encoding.0 & 0x10000 != 0) ==> final(hw).spec_field(GUEST_STATE_PDPTE0 as u64) == old(hw).spec_field(GUEST_STATE_PDPTE0 as u64),
            old(self).loose_encoded() && old(self).pdpe_1.encoding.0 & 0x10000 != 0 ==> final(hw).spec_field(GUEST_STATE_PDPTE1 as u64) == Some(old(self).pdpe_1.value),
            old(self).loose_encoded() && !(old(self).pdpe_1.encoding.0 & 0x10000 != 0) ==> final(hw).spec_field(GUEST_STATE_PDPTE1 as u64) == old(hw).spec_field(GUEST_STATE_PDPTE1 as u64),
            old(self).loose_encoded() && old(self).pdpe_2.encoding.0 & 0x10000 != 0 ==> final(hw).spec_field(GUEST_STATE_PDPTE2 as u64) == Some(old(self).pdpe_2.value),
            old(self).loose_encoded() && !(old(self).pdpe_2.encoding.0 & 0x10000 != 0) ==> final(hw).spec_field(GUEST_STATE_PDPTE2 as u64) == old(hw).spec_field(GUEST_STATE_PDPTE2 as u64),
            old(self).loose_encoded() && old(self).pdpe_3.encoding.0 & 0x10000 != 0 ==> final(hw).spec_field(GUEST_STATE_PDPTE3 as u64) == Some(old(self).pdpe_3.value),
            old(self).loose_encoded() && !(old(self).pdpe_3.encoding.0 & 0x10000 != 0) ==> final(hw).spec_field(GUEST_STATE_PDPTE3 as u64) == old(hw).spec_field(GUEST_STATE_PDPTE3 as u64),
            old(self).loose_encoded() ==> (forall|k: u64| !spec_guest_key(k) ==> (#[trigger] final(hw).spec_field(k)) == old(hw).spec_field(k)),
            old(self).loose_encoded() ==> final(hw).cr2 == old(hw).cr2 || old(self).cr2.encoding.0 & 0x10000 != 0,
    {
        proof {
            crate::access::lemma_mark_mask_stable();
        }
        self.commit_dirty_low(hw, entry_ctls)?;
        self.commit_dirty_high(hw, pin_allow1)?;
        Ok(())
    }
}

impl ExecCtl {
    /// Every field's encoding, with the mirror marks ignored, is its
    /// assigned constant: the shape the mirror has at runtime after the
    /// encode phase.
    pub open spec fn loose_encoded(&self) -> bool {
        &&& self.pin.encoding.0 & !0x8000u32 & !0x10000u32 == EXEC_CTRL_PINBASED
        &&& self.proc1.encoding.0 & !0x8000u32 & !0x10000u32 == EXEC_CTRL_PROCBASED_1
        &&& self.proc2.encoding.0 & !0x8000u32 & !0x10000u32 == EXEC_CTRL_PROCBASED_2
        &&& self.excp_bitmap.encoding.0 & !0x8000u32 & !0x10000u32 == EXEC_CTRL_EXCP_BITMAP
        &&& self.pf_err_msk.encoding.0 & !0x8000u32 & !0x10000u32 == EXEC_CTRL_PF_ERR_MASK
        &&& self.pf_err_mch.encoding.0 & !0x8000u32 & !0x10000u32 == EXEC_CTRL_PF_ERR_MATCH
        &&& self.ioA_bitmap.encoding.0 & !0x8000u32 & !0x10000u32 == EXEC_CTRL_ADDR_IO_MAP_A
        &&& self.ioB_bitmap.encoding.0 & !0x8000u32 & !0x10000u32 == EXEC_CTRL_ADDR_IO_MAP_B
        &&& self.tsc_offset.encoding.0 & !0x8000u32 & !0x10000u32 == EXEC_CTRL_TSC_OFFSET
        &&& self.cr0_mask.encoding.0 & !0x8000u32 & !0x10000u32 == EXEC_CTRL_CR0_GUEST_HOST_MASK
        &&& self.cr4_mask.encoding.0 & !0x8000u32 & !0x10000u32 == EXEC_CTRL_CR4_GUEST_HOST_MASK
        &&& self.cr0_read_shadow.encoding.0 & !0x8000u32 & !0x10000u32 == EXEC_CTRL_CR0_READ_SHADOW
        &&& self.cr4_read_shadow.encoding.0 & !0x8000u32 & !0x10000u32 == EXEC_CTRL_CR4_READ_SHADOW
        &&& self.cr3_target_0.encoding.0 & !0x8000u32 & !0x10000u32 == EXEC_CTRL_CR3_TARGET_0
        &&& self.cr3_target_1.encoding.0 & !0x8000u32 & !0x10000u32 == EXEC_CTRL_CR3_TARGET_1
        &&& self.cr3_target_2.encoding.0 & !0x8000u32 & !0x10000u32 == EXEC_CTRL_CR3_TARGET_2
        &&& self.cr3_target_3.encoding.0 & !0x8000u32 & !0x10000u32 == EXEC_CTRL_CR3_TARGET_3
        &&& self.cr3_target_cnt.encoding.0 & !0x8000u32 & !0x10000u32 == EXEC_CTRL_CR3_TARGET_COUNT
        &&& self.apic_addr.encoding.0 & !0x8000u32 & !0x10000u32 == EXEC_CTRL_APIC_PAGE_ADDR
        &&& self.vapic_addr.encoding.0 & !0x8000u32 & !0x10000u32 == EXEC_CTRL_VAPIC_PAGE_ADDR
        &&& self.tpr_threshold.encoding.0 & !0x8000u32 & !0x10000u32 == EXEC_CTRL_TPR_THRESHOLD
        &&& self.msr_bitmap.encoding.0 & !0x8000u32 & !0x10000u32 == EXEC_CTRL_ADDR_MSR_MAP
        &&& self.executive_vmcs_ptr.encoding.0 & !0x8000u32 & !0x10000u32 == EXEC_CTRL_VMCS_PTR
        &&& self.eptp.encoding.0 & !0x8000u32 & !0x10000u32 == EXEC_CTRL_EPTP
        &&& self.vpid.encoding.0 & !0x8000u32 & !0x10000u32 == EXEC_CTRL_VPID
    }

    /// Runtime flush: write back only the dirty execution controls.
    #[verifier::rlimit(100)]
    #[verifier::spinoff_prover]
    pub fn commit_dirty(&mut self, hw: &mut Region, proc1_allow1: u64, proc2_allow1: u64) -> (r: Result<(), VmmError>)
        ensures
            r is Ok,
            final(hw).revision_id == old(hw).revision_id,
            old(self).loose_encoded() && old(self).pin.encoding.0 & 0x10000 != 0 ==> final(hw).spec_field(EXEC_CTRL_PINBASED as u64) == Some(crate::regs::spec_mask(old(self).pin.fixed, old(self).pin.value)),
            old(self).loose_encoded() && !(old(self).pin.encoding.0 & 0x10000 != 0) ==> final(hw).spec_field(EXEC_CTRL_PINBASED as u64) == old(hw).spec_field(EXEC_CTRL_PINBASED as u64),
            old(self).loose_encoded() && old(self).proc1.encoding.0 & 0x10000 != 0 ==> final(hw).spec_field(EXEC_CTRL_PROCBASED_1 as u64) == Some(crate::regs::spec_mask(old(self).proc1.fixed, old(self).proc1.value)),
            old(self).loose_encoded() && !(old(self).proc1.encoding.0 & 0x10000 != 0) ==> final(hw).spec_field(EXEC_CTRL_PROCBASED_1 as u64) == old(hw).spec_field(EXEC_CTRL_PROCBASED_1 as u64),
            old(self).loose_encoded() && old(self).proc2.encoding.0 & 0x10000 != 0 ==> final(hw).spec_field(EXEC_CTRL_PROCBASED_2 as u64) == Some(crate::regs::spec_mask(old(self).proc2.fixed, old(self).proc2.value)),
            old(self).loose_encoded() && !(old(self).proc2.encoding.0 & 0x10000 != 0) ==> final(hw).spec_field(EXEC_CTRL_PROCBASED_2 as u64) == old(hw).spec_field(EXEC_CTRL_PROCBASED_2 as u64),
            old(self).loose_encoded() && old(self).excp_bitmap.encoding.0 & 0x10000 != 0 ==> final(hw).spec_field(EXEC_CTRL_EXCP_BITMAP as u64) == Some(old(self).excp_bitmap.value),
            old(self).loose_encoded() && !(old(self).excp_bitmap.encoding.0 & 0x10000 != 0) ==> final(hw).spec_field(EXEC_CTRL_EXCP_BITMAP as u64) == old(hw).spec_field(EXEC_CTRL_EXCP_BITMAP as u64),
            old(self).loose_encoded() && old(self).pf_err_msk.encoding.0 & 0x10000 != 0 ==> final(hw).spec_field(EXEC_CTRL_PF_ERR_MASK as u64) == Some(old(self).pf_err_msk.value),
            old(self).loose_encoded() && !(old(self).pf_err_msk.encoding.0 & 0x10000 != 0) ==> final(hw).spec_field(EXEC_CTRL_PF_ERR_MASK as u64) == old(hw).spec_field(EXEC_CTRL_PF_ERR_MASK as u64),
            old(self).loose_encoded() && old(self).pf_err_mch.encoding.0 & 0x10000 != 0 ==> final(hw).spec_field(EXEC_CTRL_PF_ERR_MATCH as u64) == Some(old(self).pf_err_mch.value),
            old(self).loose_encoded() && !(old(self).pf_err_mch.encoding.0 & 0x10000 != 0) ==> final(hw).spec_field(EXEC_CTRL_PF_ERR_MATCH as u64) == old(hw).spec_field(EXEC_CTRL_PF_ERR_MATCH as u64),
            old(self).loose_encoded() && old(self).ioA_bitmap.encoding.0 & 0x10000 != 0 ==> final(hw).spec_field(EXEC_CTRL_ADDR_IO_MAP_A as u64) == Some(old(self).ioA_bitmap.value),
            old(self).loose_encoded() && !(old(self).ioA_bitmap.encoding.0 & 0x10000 != 0) ==> final(hw).spec_field(EXEC_CTRL_ADDR_IO_MAP_A as u64) == old(hw).spec_field(EXEC_CTRL_ADDR_IO_MAP_A as u64),
            old(self).loose_encoded() && old(self).ioB_bitmap.encoding.0 & 0x10000 != 0 ==> final(hw).spec_field(EXEC_CTRL_ADDR_IO_MAP_B as u64) == Some(old(self).ioB_bitmap.value),
            old(self).loose_encoded() && !(old(self).ioB_bitmap.encoding.0 & 0x10000 != 0) ==> final(hw).spec_field(EXEC_CTRL_ADDR_IO_MAP_B as u64) == old(hw).spec_field(EXEC_CTRL_ADDR_IO_MAP_B as u64),
            old(self).loose_encoded() && old(self).tsc_offset.encoding.0 & 0x10000 != 0 ==> final(hw).spec_field(EXEC_CTRL_TSC_OFFSET as u64) == Some(old(self).tsc_offset.value),
            old(self).loose_encoded() && !(old(self).tsc_offset.encoding.0 & 0x10000 != 0) ==> final(hw).spec_field(EXEC_CTRL_TSC_OFFSET as u64) == old(hw).spec_field(EXEC_CTRL_TSC_OFFSET as u64),
            old(self).loose_encoded() && old(self).cr0_mask.encoding.0 & 0x10000 != 0 ==> final(hw).spec_field(EXEC_CTRL_CR0_GUEST_HOST_MASK as u64) == Some(old(self).cr0_mask.value),
            old(self).loose_encoded() && !(old(self).cr0_mask.encoding.0 & 0x10000 != 0) ==> final(hw).spec_field(EXEC_CTRL_CR0_GUEST_HOST_MASK as u64) == old(hw).spec_field(EXEC_CTRL_CR0_GUEST_HOST_MASK as u64),
            old(self).loose_encoded() && old(self).cr4_mask.encoding.0 & 0x10000 != 0 ==> final(hw).spec_field(EXEC_CTRL_CR4_GUEST_HOST_MASK as u64) == Some(old(self).cr4_mask.value),
            old(self).loose_encoded() && !(old(self).cr4_mask.encoding.0 & 0x10000 != 0) ==> final(hw).spec_field(EXEC_CTRL_CR4_GUEST_HOST_MASK as u64) == old(hw).spec_field(EXEC_CTRL_CR4_GUEST_HOST_MASK as u64),
            old(self).loose_encoded() && old(self).cr0_read_shadow.encoding.0 & 0x10000 != 0 ==> final(hw).spec_field(EXEC_CTRL_CR0_READ_SHADOW as u64) == Some(old(self).cr0_read_shadow.value),
            old(self).loose_encoded() && !(old(self).cr0_read_shadow.encoding.0 & 0x10000 != 0) ==> final(hw).spec_field(EXEC_CTRL_CR0_READ_SHADOW as u64) == old(hw).spec_field(EXEC_CTRL_CR0_READ_SHADOW as u64),
            old(self).loose_encoded() && old(self).cr4_read_shadow.encoding.0 & 0x10000 != 0 ==> final(hw).spec_field(EXEC_CTRL_CR4_READ_SHADOW as u64) == Some(old(self).cr4_read_shadow.value),
            old(self).loose_encoded() && !(old(self).cr4_read_shadow.encoding.0 & 0x10000 != 0) ==> final(hw).spec_field(EXEC_CTRL_CR4_READ_SHADOW as u64) == old(hw).spec_field(EXEC_CTRL_CR4_READ_SHADOW as u64),
            old(self).loose_encoded() && old(self).cr3_target_0.encoding.0 & 0x10000 != 0 ==> final(hw).spec_field(EXEC_CTRL_CR3_TARGET_0 as u64) == Some(old(self).cr3_target_0.value),
            old(self).loose_encoded() && !(old(self).cr3_target_0.encoding.0 & 0x10000 != 0) ==> final(hw).spec_field(EXEC_CTRL_CR3_TARGET_0 as u64) == old(hw).spec_field(EXEC_CTRL_CR3_TARGET_0 as u64),
            old(self).loose_encoded() && old(self).cr3_target_1.encoding.0 & 0x10000 != 0 ==> final(hw).spec_field(EXEC_CTRL_CR3_TARGET_1 as u64) == Some(old(self).cr3_target_1.value),
            old(self).loose_encoded() && !(old(self).cr3_target_1.encoding.0 & 0x10000 != 0) ==> final(hw).spec_field(EXEC_CTRL_CR3_TARGET_1 as u64) == old(hw).spec_field(EXEC_CTRL_CR3_TARGET_1 as u64),
            old(self).loose_encoded() && old(self).cr3_target_2.encoding.0 & 0x10000 != 0 ==> final(hw).spec_field(EXEC_CTRL_CR3_TARGET_2 as u64) == Some(old(self).cr3_target_2.value),
            old(self).loose_encoded() && !(old(self).cr3_target_2.encoding.0 & 0x10000 != 0) ==> final(hw).spec_field(EXEC_CTRL_CR3_TARGET_2 as u64) == old(hw).spec_field(EXEC_CTRL_CR3_TARGET_2 as u64),
            old(self).loose_encoded() && old(self).cr3_target_3.encoding.0 & 0x10000 != 0 ==> final(hw).spec_field(EXEC_CTRL_CR3_TARGET_3 as u64) == Some(old(self).cr3_target_3.value),
            old(self).loose_encoded() && !(old(self).cr3_target_3.encoding.0 & 0x10000 != 0) ==> final(hw).spec_field(EXEC_CTRL_CR3_TARGET_3 as u64) == old(hw).spec_field(EXEC_CTRL_CR3_TARGET_3 as u64),
            old(self).loose_encoded() && old(self).cr3_target_cnt.encoding.0 & 0x10000 != 0 ==> final(hw).spec_field(EXEC_CTRL_CR3_TARGET_COUNT as u64) == Some(old(self).cr3_target_cnt.value),
            old(self).loose_encoded() && !(old(self).cr3_target_cnt.encoding.0 & 0x10000 != 0) ==> final(hw).spec_field(EXEC_CTRL_CR3_TARGET_COUNT as u64) == old(hw).spec_field(EXEC_CTRL_CR3_TARGET_COUNT as u64),
            old(self).loose_encoded() && old(self).apic_addr.encoding.0 & 0x10000 != 0 && (proc2_allow1 & crate::regs::PROC2_VAPIC != 0) ==> final(hw).spec_field(EXEC_CTRL_APIC_PAGE_ADDR as u64) == Some(old(self).apic_addr.value),
            old(self).loose_encoded() && !(old(self).apic_addr.encoding.0 & 0x10000 != 0 && (proc2_allow1 & crate::regs::PROC2_VAPIC != 0)) ==> final(hw).spec_field(EXEC_CTRL_APIC_PAGE_ADDR as u64) == old(hw).spec_field(EXEC_CTRL_APIC_PAGE_ADDR as u64),
            old(self).loose_encoded() && old(self).vapic_addr.encoding.0 & 0x10000 != 0 && (proc1_allow1 & crate::regs::PROC1_TPRS != 0) ==> final(hw).spec_field(EXEC_CTRL_VAPIC_PAGE_ADDR as u64) == Some(old(self).vapic_addr.value),
            old(self).loose_encoded() && !(old(self).vapic_addr.encoding.0 & 0x10000 != 0 && (proc1_allow1 & crate::regs::PROC1_TPRS != 0)) ==> final(hw).spec_field(EXEC_CTRL_VAPIC_PAGE_ADDR as u64) == old(hw).spec_field(EXEC_CTRL_VAPIC_PAGE_ADDR as u64),
            old(self).loose_encoded() && old(self).tpr_threshold.encoding.0 & 0x10000 != 0 ==> final(hw).spec_field(EXEC_CTRL_TPR_THRESHOLD as u64) == Some(old(self).tpr_threshold.value),
            old(self).loose_encoded() && !(old(self).tpr_threshold.encoding.0 & 0x10000 != 0) ==> final(hw).spec_field(EXEC_CTRL_TPR_THRESHOLD as u64) == old(hw).spec_field(EXEC_CTRL_TPR_THRESHOLD as u64),
            old(self).loose_encoded() && old(self).msr_bitmap.encoding.0 & 0x10000 != 0 ==> final(hw).spec_field(EXEC_CTRL_ADDR_MSR_MAP as u64) == Some(old(self).msr_bitmap.value),
            old(self).loose_encoded() && !(old(self).msr_bitmap.encoding.0 & 0x10000 != 0) ==> final(hw).spec_field(EXEC_CTRL_ADDR_MSR_MAP as u64) == old(hw).spec_field(EXEC_CTRL_ADDR_MSR_MAP as u64),
            old(self).loose_encoded() && old(self).executive_vmcs_ptr.encoding.0 & 0x10000 != 0 ==> final(hw).spec_field(EXEC_CTRL_VMCS_PTR as u64) == Some(old(self).executive_vmcs_ptr.value),
            old(self).loose_encoded() && !(old(self).executive_vmcs_ptr.encoding.0 & 0x10000 != 0) ==> final(hw).spec_field(EXEC_CTRL_VMCS_PTR as u64) == old(hw).spec_field(EXEC_CTRL_VMCS_PTR as u64),
            old(self).loose_encoded() && old(self).eptp.encoding.0 & 0x10000 != 0 ==> final(hw).spec_field(EXEC_CTRL_EPTP as u64) == Some(old(self).eptp.value),
            old(self).loose_encoded() && !(old(self).eptp.encoding.0 & 0x10000 != 0) ==> final(hw).spec_field(EXEC_CTRL_EPTP as u64) == old(hw).spec_field(EXEC_CTRL_EPTP as u64),
            old(self).loose_encoded() && old(self).vpid.encoding.0 & 0x10000 != 0 ==> final(hw).spec_field(EXEC_CTRL_VPID as u64) == Some(old(self).vpid.value),
            old(self).loose_encoded() && !(old(self).vpid.encoding.0 & 0x10000 != 0) ==> final(hw).spec_field(EXEC_CTRL_VPID as u64) == old(hw).spec_field(EXEC_CTRL_VPID as u64),
            old(self).loose_encoded() ==> (forall|k: u64| !spec_exec_key(k) ==> (#[trigger] final(hw).spec_field(k)) == old(hw).spec_field(k)),
            old(self).loose_encoded() ==> final(hw).cr2 == old(hw).cr2 || false,
    {
        self.pin.flush(hw)?;
        self.proc1.flush(hw)?;
        self.proc2.flush(hw)?;
        self.vpid.flush(hw)?;
        self.ioA_bitmap.flush(hw)?;
        self.ioB_bitmap.flush(hw)?;
        self.msr_bitmap.flush(hw)?;
        self.executive_vmcs_ptr.flush(hw)?;
        self.tsc_offset.flush(hw)?;
        self.eptp.flush(hw)?;
        if proc1_allow1 & crate::regs::PROC1_TPRS != 0 {
            self.vapic_addr.flush(hw)?;
        }
        if proc2_allow1 & crate::regs::PROC2_VAPIC != 0 {
            self.apic_addr.flush(hw)?;
        }
        self.excp_bitmap.flush(hw)?;
        self.pf_err_msk.flush(hw)?;
        self.pf_err_mch.flush(hw)?;
        self.cr3_target_cnt.flush(hw)?;
        self.tpr_threshold.flush(hw)?;
        self.cr0_mask.flush(hw)?;
        self.cr4_mask.flush(hw)?;
        self.cr0_read_shadow.flush(hw)?;
        self.cr4_read_shadow.flush(hw)?;
        self.cr3_target_0.flush(hw)?;
        self.cr3_target_1.flush(hw)?;
        self.cr3_target_2.flush(hw)?;
        self.cr3_target_3.flush(hw)?;
        Ok(())
    }
}

impl ExitCtl {
    /// Every field's encoding, with the mirror marks ignored, is its
    /// assigned constant: the shape the mirror has at runtime after the
    /// encode phase.
    pub open spec fn loose_encoded(&self) -> bool {
        &&& self.exit.encoding.0 & !0x8000u32 & !0x10000u32 == EXIT_CTRLS
        &&& self.msr_store_cnt.encoding.0 & !0x8000u32 & !0x10000u32 == EXIT_CTRL_MSR_STORE_COUNT
        &&& self.msr_store_addr.encoding.0 & !0x8000u32 & !0x10000u32 == EXIT_CTRL_MSR_STORE_ADDR
        &&& self.msr_load_cnt.encoding.0 & !0x8000u32 & !0x10000u32 == EXIT_CTRL_MSR_LOAD_COUNT
        &&& self.msr_load_addr.encoding.0 & !0x8000u32 & !0x10000u32 == EXIT_CTRL_MSR_LOAD_ADDR
    }

    /// Runtime flush: write back only the dirty exit controls.
    #[verifier::rlimit(100)]
    pub fn commit_dirty(&mut self, hw: &mut Region) -> (r: Result<(), VmmError>)
        ensures
            r is Ok,
            final(hw).revision_id == old(hw).revision_id,
            old(self).loose_encoded() && old(self).exit.encoding.0 & 0x10000 != 0 ==> final(hw).spec_field(EXIT_CTRLS as u64) == Some(crate::regs::spec_mask(old(self).exit.fixed, old(self).exit.value)),
            old(self).loose_encoded() && !(old(self).exit.encoding.0 & 0x10000 != 0) ==> final(hw).spec_field(EXIT_CTRLS as u64) == old(hw).spec_field(EXIT_CTRLS as u64),
            old(self).loose_encoded() && old(self).msr_store_cnt.encoding.0 & 0x10000 != 0 ==> final(hw).spec_field(EXIT_CTRL_MSR_STORE_COUNT as u64) == Some(old(self).msr_store_cnt.value),
            old(self).loose_encoded() && !(old(self).msr_store_cnt.encoding.0 & 0x10000 != 0) ==> final(hw).spec_field(EXIT_CTRL_MSR_STORE_COUNT as u64) == old(hw).spec_field(EXIT_CTRL_MSR_STORE_COUNT as u64),
            old(self).loose_encoded() && old(self).msr_store_addr.encoding.0 & 0x10000 != 0 ==> final(hw).spec_field(EXIT_CTRL_MSR_STORE_ADDR as u64) == Some(old(self).msr_store_addr.value),
            old(self).loose_encoded() && !(old(self).msr_store_addr.encoding.0 & 0x10000 != 0) ==> final(hw).spec_field(EXIT_CTRL_MSR_STORE_ADDR as u64) == old(hw).spec_field(EXIT_CTRL_MSR_STORE_ADDR as u64),
            old(self).loose_encoded() && old(self).msr_load_cnt.encoding.0 & 0x10000 != 0 ==> final(hw).spec_field(EXIT_CTRL_MSR_LOAD_COUNT as u64) == Some(old(self).msr_load_cnt.value),
            old(self).loose_encoded() && !(old(self).msr_load_cnt.encoding.0 & 0x10000 != 0) ==> final(hw).spec_field(EXIT_CTRL_MSR_LOAD_COUNT as u64) == old(hw).spec_field(EXIT_CTRL_MSR_LOAD_COUNT as u64),
            old(self).loose_encoded() && old(self).msr_load_addr.encoding.0 & 0x10000 != 0 ==> final(hw).spec_field(EXIT_CTRL_MSR_LOAD_ADDR as u64) == Some(old(self).msr_load_addr.value),
            old(self).loose_encoded() && !(old(self).msr_load_addr.encoding.0 & 0x10000 != 0) ==> final(hw).spec_field(EXIT_CTRL_MSR_LOAD_ADDR as u64) == old(hw).spec_field(EXIT_CTRL_MSR_LOAD_ADDR as u64),
            old(self).loose_encoded() ==> (forall|k: u64| !spec_exitctl_key(k) ==> (#[trigger] final(hw).spec_field(k)) == old(hw).spec_field(k)),
            old(self).loose_encoded() ==> final(hw).cr2 == old(hw).cr2 || false,
    {
        self.msr_store_addr.flush(hw)?;
        self.msr_load_addr.flush(hw)?;
        self.exit.flush(hw)?;
        self.msr_store_cnt.flush(hw)?;
        self.msr_load_cnt.flush(hw)?;
        Ok(())
    }
}

impl EntryCtl {
    /// Every field's encoding, with the mirror marks ignored, is its
    /// assigned constant: the shape the mirror has at runtime after the
    /// encode phase.
    pub open spec fn loose_encoded(&self) -> bool {
        &&& self.entry.encoding.0 & !0x8000u32 & !0x10000u32 == ENTRY_CTRLS
        &&& self.msr_load_cnt.encoding.0 & !0x8000u32 & !0x10000u32 == ENTRY_CTRL_MSR_LOAD_COUNT
        &&& self.msr_load_addr.encoding.0 & !0x8000u32 & !0x10000u32 == ENTRY_CTRL_MSR_LOAD_ADDR
        &&& self.int_info.encoding.0 & !0x8000u32 & !0x10000u32 == ENTRY_CTRL_INT_INFO
        &&& self.int_err_code.encoding.0 & !0x8000u32 & !0x10000u32 == ENTRY_CTRL_EXCP_ERR_CODE
        &&& self.insn_len.encoding.0 & !0x8000u32 & !0x10000u32 == ENTRY_CTRL_INSN_LEN
    }

    /// Runtime flush: write back only the dirty entry controls.
    #[verifier::rlimit(100)]
    pub fn commit_dirty(&mut self, hw: &mut Region) -> (r: Result<(), VmmError>)
        ensures
            r is Ok,
            final(hw).revision_id == old(hw).revision_id,
            old(self).loose_encoded() && old(self).entry.encoding.0 & 0x10000 != 0 ==> final(hw).spec_field(ENTRY_CTRLS as u64) == Some(crate::regs::spec_mask(old(self).entry.fixed, old(self).entry.value)),
            old(self).loose_encoded() && !(old(self).entry.encoding.0 & 0x10000 != 0) ==> final(hw).spec_field(ENTRY_CTRLS as u64) == old(hw).spec_field(ENTRY_CTRLS as u64),
            old(self).loose_encoded() && old(self).msr_load_cnt.encoding.0 & 0x10000 != 0 ==> final(hw).spec_field(ENTRY_CTRL_MSR_LOAD_COUNT as u64) == Some(old(self).msr_load_cnt.value),
            old(self).loose_encoded() && !(old(self).msr_load_cnt.encoding.0 & 0x10000 != 0) ==> final(hw).spec_field(ENTRY_CTRL_MSR_LOAD_COUNT as u64) == old(hw).spec_field(ENTRY_CTRL_MSR_LOAD_COUNT as u64),
            old(self).loose_encoded() && old(self).msr_load_addr.encoding.0 & 0x10000 != 0 ==> final(hw).spec_field(ENTRY_CTRL_MSR_LOAD_ADDR as u64) == Some(old(self).msr_load_addr.value),
            old(self).loose_encoded() && !(old(self).msr_load_addr.encoding.0 & 0x10000 != 0) ==> final(hw).spec_field(ENTRY_CTRL_MSR_LOAD_ADDR as u64) == old(hw).spec_field(ENTRY_CTRL_MSR_LOAD_ADDR as u64),
            old(self).loose_encoded() && old(self).int_info.encoding.0 & 0x10000 != 0 ==> final(hw).spec_field(ENTRY_CTRL_INT_INFO as u64) == Some(old(self).int_info.value),
            old(self).loose_encoded() && !(old(self).int_info.encoding.0 & 0x10000 != 0) ==> final(hw).spec_field(ENTRY_CTRL_INT_INFO as u64) == old(hw).spec_field(ENTRY_CTRL_INT_INFO as u64),
            old(self).loose_encoded() && old(self).int_err_code.encoding.0 & 0x10000 != 0 ==> final(hw).spec_field(ENTRY_CTRL_EXCP_ERR_CODE as u64) == Some(old(self).int_err_code.value),
            old(self).loose_encoded() && !(old(self).int_err_code.encoding.0 & 0x10000 != 0) ==> final(hw).spec_field(ENTRY_CTRL_EXCP_ERR_CODE as u64) == old(hw).spec_field(ENTRY_CTRL_EXCP_ERR_CODE as u64),
            old(self).loose_encoded() && old(self).insn_len.encoding.0 & 0x10000 != 0 ==> final(hw).spec_field(ENTRY_CTRL_INSN_LEN as u64) == Some(old(self).insn_len.value),
            old(self).loose_encoded() && !(old(self).insn_len.encoding.0 & 0x10000 != 0) ==> final(hw).spec_field(ENTRY_CTRL_INSN_LEN as u64) == old(hw).spec_field(ENTRY_CTRL_INSN_LEN as u64),
            old(self).loose_encoded() ==> (forall|k: u64| !spec_entryctl_key(k) ==> (#[trigger] final(hw).spec_field(k)) == old(hw).spec_field(k)),
            old(self).loose_encoded() ==> final(hw).cr2 == old(hw).cr2 || false,
    {
        self.msr_load_addr.flush(hw)?;
        self.entry.flush(hw)?;
        self.msr_load_cnt.flush(hw)?;
        self.int_info.flush(hw)?;
        self.int_err_code.flush(hw)?;
        self.insn_len.flush(hw)?;
        Ok(())
    }
}

impl Ctl {
    /// Runtime flush of the three control groups.
    pub fn commit_dirty(&mut self, hw: &mut Region, fixed: &FixedRegisters) -> (r: Result<
        (),
        VmmError,
    >)
        ensures
            r is Ok,
            final(hw).revision_id == old(hw).revision_id,
            old(self).entry.loose_encoded() && old(self).execution.loose_encoded() && old(self).exit.loose_encoded() ==> (forall|k: u64| !spec_entryctl_key(k) && !spec_exec_key(k) && !spec_exitctl_key(k) ==> (#[trigger] final(hw).spec_field(k)) == old(hw).spec_field(k)),
    {
        self.entry.commit_dirty(hw)?;
        self.execution.commit_dirty(hw, fixed.proc1.allow_1, fixed.proc2.allow_1)?;
        self.exit.commit_dirty(hw)
    }
}

impl VMCS {
    /// Every group still carries its encodings under the mirror marks.
    pub open spec fn loose_encoded(&self) -> bool {
        self.host.loose_encoded() && self.guest.loose_encoded() && self.ctrl.execution.loose_encoded()
            && self.ctrl.exit.loose_encoded() && self.ctrl.entry.loose_encoded()
    }

    #[verifier::rlimit(100)]
    #[verifier::spinoff_prover]
    /// The VM-exit epilogue: drop the cached exit information, then write
    /// back every dirty control, guest and host field.  Under the encode
    /// phase's (mark-masked) encodings, keys the mirror does not own are
    /// untouched, and the guest registers the emulator dirties read back
    /// from the region.
    pub fn commit_dirty(&mut self, hw: &mut Region, fixed: &FixedRegisters) -> (r: Result<
        (),
        VmmError,
    >)
        requires
            old(self).guest.cr2.encoding.0 & !0x8000u32 & !0x10000u32 == GUEST_STATE_CR2,
            old(self).guest.dr6.encoding.0 & !0x8000u32 & !0x10000u32 == GUEST_STATE_DR6,
        ensures
            r is Ok,
            final(hw).revision_id == old(hw).revision_id,
            old(self).loose_encoded() ==> (forall|k: u64| !spec_mirror_key(k) ==> (#[trigger] final(hw).spec_field(k)) == old(hw).spec_field(k)),
            old(self).loose_encoded() && old(self).guest.rip.encoding.0 & 0x10000 != 0 ==> final(hw).spec_field(GUEST_STATE_RIP as u64) == Some(old(self).guest.rip.value),
            old(self).loose_encoded() && old(self).guest.rsp.encoding.0 & 0x10000 != 0 ==> final(hw).spec_field(GUEST_STATE_RSP as u64) == Some(old(self).guest.rsp.value),
            old(self).loose_encoded() && old(self).guest.rflags.encoding.0 & 0x10000 != 0 ==> final(hw).spec_field(GUEST_STATE_RFLAGS as u64) == Some(old(self).guest.rflags.value),
            old(self).loose_encoded() && old(self).guest.cs_sel.encoding.0 & 0x10000 != 0 ==> final(hw).spec_field(GUEST_STATE_CS_SEL as u64) == Some(old(self).guest.cs_sel.value),
            old(self).loose_encoded() && old(self).guest.cs_base.encoding.0 & 0x10000 != 0 ==> final(hw).spec_field(GUEST_STATE_CS_BASE as u64) == Some(old(self).guest.cs_base.value),
    {
        self.exit.clear();
        self.ctrl.commit_dirty(hw, fixed)?;
        let entry_ctls = self.ctrl.entry.entry.value;
        let exit_ctls = self.ctrl.exit.exit.value;
        self.guest.commit_dirty(hw, fixed, entry_ctls, fixed.pin.allow_1)?;
        self.host.commit_dirty(hw, exit_ctls)
    }
}



/// Every encoding constant the mirror assigns — the fake CR2/DR6
/// discriminators included — in increasing order.
pub open spec fn spec_mirror_encodings() -> Seq<u32> {
    seq![
        EXEC_CTRL_VPID,
        EXEC_CTRL_EPTP_IDX,
        GUEST_STATE_ES_SEL,
        GUEST_STATE_CS_SEL,
        GUEST_STATE_SS_SEL,
        GUEST_STATE_DS_SEL,
        GUEST_STATE_FS_SEL,
        GUEST_STATE_GS_SEL,
        GUEST_STATE_LDTR_SEL,
        GUEST_STATE_TR_SEL,
        GUEST_STATE_INTR,
        GUEST_STATE_PML_IDX,
        HOST_STATE_ES_SEL,
        HOST_STATE_CS_SEL,
        HOST_STATE_SS_SEL,
        HOST_STATE_DS_SEL,
        HOST_STATE_FS_SEL,
        HOST_STATE_GS_SEL,
        HOST_STATE_TR_SEL,
        EXEC_CTRL_ADDR_IO_MAP_A,
        EXEC_CTRL_ADDR_IO_MAP_B,
        EXEC_CTRL_ADDR_MSR_MAP,
        EXIT_CTRL_MSR_STORE_ADDR,
        EXIT_CTRL_MSR_LOAD_ADDR,
        ENTRY_CTRL_MSR_LOAD_ADDR,
        EXEC_CTRL_VMCS_PTR,
        EXEC_CTRL_PML_ADDR,
        EXEC_CTRL_TSC_OFFSET,
        EXEC_CTRL_VAPIC_PAGE_ADDR,
        EXEC_CTRL_APIC_PAGE_ADDR,
        EXEC_CTRL_POSTED_INT,
        EXEC_CTRL_VM_FUNC,
        EXEC_CTRL_EPTP,
        EXEC_CTRL_EPTP_LIST,
        EXEC_CTRL_VMREAD_MAP,
        EXEC_CTRL_VMWRITE_MAP,
        EXEC_CTRL_VMX_EXCP_ADDR,
        EXEC_CTRL_XSS_MAP,
        EXEC_CTRL_ENCLS_MAP,
        EXIT_INFO_GUEST_PHYSICAL_ADDR,
        GUEST_STATE_VMCS_LINK_PTR,
        GUEST_STATE_IA32_DBG_CTL,
        GUEST_STATE_IA32_PAT,
        GUEST_STATE_IA32_EFER,
        GUEST_STATE_IA32_PERF_GLOBAL,
        GUEST_STATE_PDPTE0,
        GUEST_STATE_PDPTE1,
        GUEST_STATE_PDPTE2,
        GUEST_STATE_PDPTE3,
        GUEST_STATE_IA32_BNDCFG,
        HOST_STATE_IA32_PAT,
        HOST_STATE_IA32_EFER,
        HOST_STATE_IA32_PERF_GLOBAL,
        EXEC_CTRL_PINBASED,
        EXEC_CTRL_PROCBASED_1,
        EXEC_CTRL_EXCP_BITMAP,
        EXEC_CTRL_PF_ERR_MASK,
        EXEC_CTRL_PF_ERR_MATCH,
        EXEC_CTRL_CR3_TARGET_COUNT,
        EXIT_CTRLS,
        EXIT_CTRL_MSR_STORE_COUNT,
        EXIT_CTRL_MSR_LOAD_COUNT,
        ENTRY_CTRLS,
        ENTRY_CTRL_MSR_LOAD_COUNT,
        ENTRY_CTRL_INT_INFO,
        ENTRY_CTRL_EXCP_ERR_CODE,
        ENTRY_CTRL_INSN_LEN,
        EXEC_CTRL_TPR_THRESHOLD,
        EXEC_CTRL_PROCBASED_2,
        EXEC_CTRL_PLE_GAP,
        EXEC_CTRL_PLE_WIN,
        EXIT_INFO_VM_INSN_ERROR,
        EXIT_INFO_REASON,
        EXIT_INFO_VMEXIT_INT_INFO,
        EXIT_INFO_VMEXIT_INT_ERR,
        EXIT_INFO_IDT_VECT_INFO,
        EXIT_INFO_IDT_VECT_ERR,
        EXIT_INFO_VMEXIT_INSN_LEN,
        EXIT_INFO_VMEXIT_INSN_INFO,
        GUEST_STATE_ES_LIMIT,
        GUEST_STATE_CS_LIMIT,
        GUEST_STATE_SS_LIMIT,
        GUEST_STATE_DS_LIMIT,
        GUEST_STATE_FS_LIMIT,
        GUEST_STATE_GS_LIMIT,
        GUEST_STATE_LDTR_LIMIT,
        GUEST_STATE_TR_LIMIT,
        GUEST_STATE_GDTR_LIMIT,
        GUEST_STATE_IDTR_LIMIT,
        GUEST_STATE_ES_ACCESS_RIGHTS,
        GUEST_STATE_CS_ACCESS_RIGHTS,
        GUEST_STATE_SS_ACCESS_RIGHTS,
        GUEST_STATE_DS_ACCESS_RIGHTS,
        GUEST_STATE_FS_ACCESS_RIGHTS,
        GUEST_STATE_GS_ACCESS_RIGHTS,
        GUEST_STATE_LDTR_ACCESS_RIGHTS,
        GUEST_STATE_TR_ACCESS_RIGHTS,
        GUEST_STATE_INT_STATE,
        GUEST_STATE_ACTIVITY_STATE,
        GUEST_STATE_SMBASE,
        GUEST_STATE_IA32_SYSENTER_CS,
        GUEST_STATE_PREEMPT_TIMER,
        HOST_STATE_IA32_SYSENTER_CS,
        EXEC_CTRL_CR0_GUEST_HOST_MASK,
        EXEC_CTRL_CR4_GUEST_HOST_MASK,
        EXEC_CTRL_CR0_READ_SHADOW,
        EXEC_CTRL_CR4_READ_SHADOW,
        EXEC_CTRL_CR3_TARGET_0,
        EXEC_CTRL_CR3_TARGET_1,
        EXEC_CTRL_CR3_TARGET_2,
        EXEC_CTRL_CR3_TARGET_3,
        EXIT_INFO_QUALIFICATION,
        EXIT_INFO_IO_RCX,
        EXIT_INFO_IO_RSI,
        EXIT_INFO_IO_RDI,
        EXIT_INFO_IO_RIP,
        EXIT_INFO_GUEST_LINEAR_ADDR,
        GUEST_STATE_CR0,
        GUEST_STATE_CR3,
        GUEST_STATE_CR4,
        GUEST_STATE_ES_BASE,
        GUEST_STATE_CS_BASE,
        GUEST_STATE_SS_BASE,
        GUEST_STATE_DS_BASE,
        GUEST_STATE_FS_BASE,
        GUEST_STATE_GS_BASE,
        GUEST_STATE_LDTR_BASE,
        GUEST_STATE_TR_BASE,
        GUEST_STATE_GDTR_BASE,
        GUEST_STATE_IDTR_BASE,
        GUEST_STATE_DR7,
        GUEST_STATE_RSP,
        GUEST_STATE_RIP,
        GUEST_STATE_RFLAGS,
        GUEST_STATE_PENDING_DBG_EXCP,
        GUEST_STATE_IA32_SYSENTER_ESP,
        GUEST_STATE_IA32_SYSENTER_EIP,
        HOST_STATE_CR0,
        HOST_STATE_CR3,
        HOST_STATE_CR4,
        HOST_STATE_FS_BASE,
        HOST_STATE_GS_BASE,
        HOST_STATE_TR_BASE,
        HOST_STATE_GDTR_BASE,
        HOST_STATE_IDTR_BASE,
        HOST_STATE_IA32_SYSENTER_ESP,
        HOST_STATE_IA32_SYSENTER_EIP,
        HOST_STATE_RSP,
        HOST_STATE_RIP,
        GUEST_STATE_CR2,
        GUEST_STATE_DR6,
    ]
}

/// No two mirror fields share an encoding constant — the fake CR2/DR6
/// discriminators included — so no committed field can clobber another
/// and no fake cell can be mistaken for a real field.
#[verifier::rlimit(100)]
#[verifier::spinoff_prover]
pub proof fn lemma_encoding_injective(i: int, j: int)
    requires
        0 <= i < spec_mirror_encodings().len(),
        0 <= j < spec_mirror_encodings().len(),
        i != j,
    ensures
        spec_mirror_encodings()[i] != spec_mirror_encodings()[j],
{
}

impl Host {
    /// A zeroed group with no encodings assigned.
    pub fn new() -> (r: Host) {
        Host {
            cr0: (Field { value: 0, encoding: Encoding(0) }),
            cr3: (Field { value: 0, encoding: Encoding(0) }),
            cr4: (Field { value: 0, encoding: Encoding(0) }),
            rsp: (Field { value: 0, encoding: Encoding(0) }),
            rip: (Field { value: 0, encoding: Encoding(0) }),
            cs: (Field { value: 0, encoding: Encoding(0) }),
            ss: (Field { value: 0, encoding: Encoding(0) }),
            ds: (Field { value: 0, encoding: Encoding(0) }),
            es: (Field { value: 0, encoding: Encoding(0) }),
            fs: (Field { value: 0, encoding: Encoding(0) }),
            gs: (Field { value: 0, encoding: Encoding(0) }),
            tr: (Field { value: 0, encoding: Encoding(0) }),
            fs_base: (Field { value: 0, encoding: Encoding(0) }),
            gs_base: (Field { value: 0, encoding: Encoding(0) }),
            tr_base: (Field { value: 0, encoding: Encoding(0) }),
            gdtr_base: (Field { value: 0, encoding: Encoding(0) }),
            idtr_base: (Field { value: 0, encoding: Encoding(0) }),
            ia32_sysenter_cs: (Field { value: 0, encoding: Encoding(0) }),
            ia32_sysenter_esp: (Field { value: 0, encoding: Encoding(0) }),
            ia32_sysenter_eip: (Field { value: 0, encoding: Encoding(0) }),
            ia32_perf: (Field { value: 0, encoding: Encoding(0) }),
            ia32_pat: (Field { value: 0, encoding: Encoding(0) }),
            ia32_efer: (Field { value: 0, encoding: Encoding(0) }),
        }
    }
}

impl Guest {
    /// A zeroed group with no encodings assigned.
    pub fn new() -> (r: Guest) {
        Guest {
            cr0: (FixedField { value: 0, fixed: FixedReg { allow_0: 0, allow_1: 0 }, encoding: Encoding(0) }),
            cr2: (FakeField { value: 0, encoding: Encoding(0) }),
            cr3: (Field { value: 0, encoding: Encoding(0) }),
            cr4: (FixedField { value: 0, fixed: FixedReg { allow_0: 0, allow_1: 0 }, encoding: Encoding(0) }),
            dr6: (FakeField { value: 0, encoding: Encoding(0) }),
            dr7: (Field { value: 0, encoding: Encoding(0) }),
            rsp: (Field { value: 0, encoding: Encoding(0) }),
            rip: (Field { value: 0, encoding: Encoding(0) }),
            rflags: (Field { value: 0, encoding: Encoding(0) }),
            es_sel: (Field { value: 0, encoding: Encoding(0) }),
            es_base: (Field { value: 0, encoding: Encoding(0) }),
            es_limit: (Field { value: 0, encoding: Encoding(0) }),
            es_attr: (Field { value: 0, encoding: Encoding(0) }),
            cs_sel: (Field { value: 0, encoding: Encoding(0) }),
            cs_base: (Field { value: 0, encoding: Encoding(0) }),
            cs_limit: (Field { value: 0, encoding: Encoding(0) }),
            cs_attr: (Field { value: 0, encoding: Encoding(0) }),
            ss_sel: (Field { value: 0, encoding: Encoding(0) }),
            ss_base: (Field { value: 0, encoding: Encoding(0) }),
            ss_limit: (Field { value: 0, encoding: Encoding(0) }),
            ss_attr: (Field { value: 0, encoding: Encoding(0) }),
            ds_sel: (Field { value: 0, encoding: Encoding(0) }),
            ds_base: (Field { value: 0, encoding: Encoding(0) }),
            ds_limit: (Field { value: 0, encoding: Encoding(0) }),
            ds_attr: (Field { value: 0, encoding: Encoding(0) }),
            fs_sel: (Field { value: 0, encoding: Encoding(0) }),
            fs_base: (Field { value: 0, encoding: Encoding(0) }),
            fs_limit: (Field { value: 0, encoding: Encoding(0) }),
            fs_attr: (Field { value: 0, encoding: Encoding(0) }),
            gs_sel: (Field { value: 0, encoding: Encoding(0) }),
            gs_base: (Field { value: 0, encoding: Encoding(0) }),
            gs_limit: (Field { value: 0, encoding: Encoding(0) }),
            gs_attr: (Field { value: 0, encoding: Encoding(0) }),
            ldtr_sel: (Field { value: 0, encoding: Encoding(0) }),
            ldtr_base: (Field { value: 0, encoding: Encoding(0) }),
            ldtr_limit: (Field { value: 0, encoding: Encoding(0) }),
            ldtr_attr: (Field { value: 0, encoding: Encoding(0) }),
            tr_sel: (Field { value: 0, encoding: Encoding(0) }),
            tr_base: (Field { value: 0, encoding: Encoding(0) }),
            tr_limit: (Field { value: 0, encoding: Encoding(0) }),
            tr_attr: (Field { value: 0, encoding: Encoding(0) }),
            gdtr_base: (Field { value: 0, encoding: Encoding(0) }),
            gdtr_limit: (Field { value: 0, encoding: Encoding(0) }),
            idtr_base: (Field { value: 0, encoding: Encoding(0) }),
            idtr_limit: (Field { value: 0, encoding: Encoding(0) }),
            ia32_dbgctl: (Field { value: 0, encoding: Encoding(0) }),
            ia32_sysenter_cs: (Field { value: 0, encoding: Encoding(0) }),
            ia32_sysenter_esp: (Field { value: 0, encoding: Encoding(0) }),
            ia32_sysenter_eip: (Field { value: 0, encoding: Encoding(0) }),
            ia32_perf: (Field { value: 0, encoding: Encoding(0) }),
            ia32_pat: (Field { value: 0, encoding: Encoding(0) }),
            ia32_efer: (Field { value: 0, encoding: Encoding(0) }),
            ia32_bndcfg: (Field { value: 0, encoding: Encoding(0) }),
            smbase: (Field { value: 0, encoding: Encoding(0) }),
            activity: (Field { value: 0, encoding: Encoding(0) }),
            interrupt: (Field { value: 0, encoding: Encoding(0) }),
            pending_dbg: (Field { value: 0, encoding: Encoding(0) }),
            vmcs_link_ptr: (Field { value: 0, encoding: Encoding(0) }),
            preempt_timer: (Field { value: 0, encoding: Encoding(0) }),
            pdpe_0: (Field { value: 0, encoding: Encoding(0) }),
            pdpe_1: (Field { value: 0, encoding: Encoding(0) }),
            pdpe_2: (Field { value: 0, encoding: Encoding(0) }),
            pdpe_3: (Field { value: 0, encoding: Encoding(0) }),
            guest_intr: (Field { value: 0, encoding: Encoding(0) }),
            pml_index: (Field { value: 0, encoding: Encoding(0) }),
        }
    }
}

impl ExecCtl {
    /// A zeroed group with no encodings assigned.
    pub fn new() -> (r: ExecCtl) {
        ExecCtl {
            pin: (FixedField { value: 0, fixed: FixedReg { allow_0: 0, allow_1: 0 }, encoding: Encoding(0) }),
            proc1: (FixedField { value: 0, fixed: FixedReg { allow_0: 0, allow_1: 0 }, encoding: Encoding(0) }),
            proc2: (FixedField { value: 0, fixed: FixedReg { allow_0: 0, allow_1: 0 }, encoding: Encoding(0) }),
            excp_bitmap: (Field { value: 0, encoding: Encoding(0) }),
            pf_err_msk: (Field { value: 0, encoding: Encoding(0) }),
            pf_err_mch: (Field { value: 0, encoding: Encoding(0) }),
            ioA_bitmap: (Field { value: 0, encoding: Encoding(0) }),
            ioB_bitmap: (Field { value: 0, encoding: Encoding(0) }),
            tsc_offset: (Field { value: 0, encoding: Encoding(0) }),
            cr0_mask: (Field { value: 0, encoding: Encoding(0) }),
            cr4_mask: (Field { value: 0, encoding: Encoding(0) }),
            cr0_read_shadow: (Field { value: 0, encoding: Encoding(0) }),
            cr4_read_shadow: (Field { value: 0, encoding: Encoding(0) }),
            cr3_target_0: (Field { value: 0, encoding: Encoding(0) }),
            cr3_target_1: (Field { value: 0, encoding: Encoding(0) }),
            cr3_target_2: (Field { value: 0, encoding: Encoding(0) }),
            cr3_target_3: (Field { value: 0, encoding: Encoding(0) }),
            cr3_target_cnt: (Field { value: 0, encoding: Encoding(0) }),
            apic_addr: (Field { value: 0, encoding: Encoding(0) }),
            vapic_addr: (Field { value: 0, encoding: Encoding(0) }),
            tpr_threshold: (Field { value: 0, encoding: Encoding(0) }),
            msr_bitmap: (Field { value: 0, encoding: Encoding(0) }),
            executive_vmcs_ptr: (Field { value: 0, encoding: Encoding(0) }),
            eptp: (Field { value: 0, encoding: Encoding(0) }),
            vpid: (Field { value: 0, encoding: Encoding(0) }),
            ple_gap: (Field { value: 0, encoding: Encoding(0) }),
            ple_win: (Field { value: 0, encoding: Encoding(0) }),
            posted_int: (Field { value: 0, encoding: Encoding(0) }),
            vm_func: (Field { value: 0, encoding: Encoding(0) }),
            eptp_list: (Field { value: 0, encoding: Encoding(0) }),
            vmread_bitmap: (Field { value: 0, encoding: Encoding(0) }),
            vmwrite_bitmap: (Field { value: 0, encoding: Encoding(0) }),
            encls_bitmap: (Field { value: 0, encoding: Encoding(0) }),
            pml_addr: (Field { value: 0, encoding: Encoding(0) }),
            vmx_excp_addr: (Field { value: 0, encoding: Encoding(0) }),
            eptp_idx: (Field { value: 0, encoding: Encoding(0) }),
            xss_bitmap: (Field { value: 0, encoding: Encoding(0) }),
        }
    }
}

impl ExitCtl {
    /// A zeroed group with no encodings assigned.
    pub fn new() -> (r: ExitCtl) {
        ExitCtl {
            exit: (FixedField { value: 0, fixed: FixedReg { allow_0: 0, allow_1: 0 }, encoding: Encoding(0) }),
            msr_store_cnt: (Field { value: 0, encoding: Encoding(0) }),
            msr_store_addr: (Field { value: 0, encoding: Encoding(0) }),
            msr_load_cnt: (Field { value: 0, encoding: Encoding(0) }),
            msr_load_addr: (Field { value: 0, encoding: Encoding(0) }),
        }
    }
}

impl EntryCtl {
    /// A zeroed group with no encodings assigned.
    pub fn new() -> (r: EntryCtl) {
        EntryCtl {
            entry: (FixedField { value: 0, fixed: FixedReg { allow_0: 0, allow_1: 0 }, encoding: Encoding(0) }),
            msr_load_cnt: (Field { value: 0, encoding: Encoding(0) }),
            msr_load_addr: (Field { value: 0, encoding: Encoding(0) }),
            int_info: (Field { value: 0, encoding: Encoding(0) }),
            int_err_code: (Field { value: 0, encoding: Encoding(0) }),
            insn_len: (Field { value: 0, encoding: Encoding(0) }),
        }
    }
}

impl Exit {
    /// A zeroed group with no encodings assigned.
    pub fn new() -> (r: Exit) {
        Exit {
            reason: (Field { value: 0, encoding: Encoding(0) }),
            qualification: (Field { value: 0, encoding: Encoding(0) }),
            guest_linear: (Field { value: 0, encoding: Encoding(0) }),
            guest_physical: (Field { value: 0, encoding: Encoding(0) }),
            int_info: (Field { value: 0, encoding: Encoding(0) }),
            int_err_code: (Field { value: 0, encoding: Encoding(0) }),
            idt_info: (Field { value: 0, encoding: Encoding(0) }),
            idt_err_code: (Field { value: 0, encoding: Encoding(0) }),
            insn_len: (Field { value: 0, encoding: Encoding(0) }),
            insn_info: (Field { value: 0, encoding: Encoding(0) }),
            io_rcx: (Field { value: 0, encoding: Encoding(0) }),
            io_rsi: (Field { value: 0, encoding: Encoding(0) }),
            io_rdi: (Field { value: 0, encoding: Encoding(0) }),
            io_rip: (Field { value: 0, encoding: Encoding(0) }),
            vmx_insn_err: (Field { value: 0, encoding: Encoding(0) }),
        }
    }
}

impl Ctl {
    /// Zeroed control groups.
    pub fn new() -> (r: Ctl) {
        Ctl { execution: ExecCtl::new(), exit: ExitCtl::new(), entry: EntryCtl::new() }
    }
}

impl VMCS {
    /// A zeroed mirror with no encodings assigned.
    pub fn new() -> (r: VMCS) {
        VMCS {
            revision_id: 0,
            abort: 0,
            guest: Guest::new(),
            host: Host::new(),
            ctrl: Ctl::new(),
            exit: Exit::new(),
        }
    }
}

impl VmHardwareVMCS {
    /// Fresh guest-side hardware memory: a clean region, allow-all
    /// bitmaps, empty MSR areas.
    pub fn new() -> (r: VmHardwareVMCS)
        ensures
            r.msr_map.wf(),
            r.ioA_map.wf(),
            r.ioB_map.wf(),
    {
        VmHardwareVMCS {
            region: Region::new(0),
            ioA_map: Bitmap::new(),
            ioB_map: Bitmap::new(),
            msr_map: Bitmap::new(),
            exit_store: CtlMSRArea::new(),
            exit_load: CtlMSRArea::new(),
            entry_load: CtlMSRArea::new(),
        }
    }
}

} // verus!

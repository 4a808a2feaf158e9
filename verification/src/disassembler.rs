//! 8080 instruction decoder for the disassembler.
use vstd::prelude::*;
use vstd::string::StringExecFns;

verus! {

/// Length in bytes of instruction `op`: the opcode and its operand bytes.
pub open spec fn instr_size(op: u8) -> u8 {
    if op == 0x01 || op == 0x11 || op == 0x21 || op == 0x22 || op == 0x2A || op == 0x31 || op == 0x32 || op == 0x3A || op == 0xC2 || op == 0xC3 || op == 0xC4 || op == 0xCA || op == 0xCC || op == 0xCD || op == 0xD2 || op == 0xD4 || op == 0xDA || op == 0xDC || op == 0xE2 || op == 0xE4 || op == 0xEA || op == 0xEC || op == 0xF2 || op == 0xF4 || op == 0xFA || op == 0xFC {
        3
    } else if op == 0x06 || op == 0x0E || op == 0x16 || op == 0x1E || op == 0x26 || op == 0x2E || op == 0x36 || op == 0x3E || op == 0xC6 || op == 0xCE || op == 0xD3 || op == 0xD6 || op == 0xDB || op == 0xDE || op == 0xE6 || op == 0xEE || op == 0xF6 || op == 0xFE {
        2
    } else {
        1
    }
}

/// Lower-case hexadecimal digit of `d` (below 16).
pub open spec fn hex_char(d: u8) -> char {
    if d < 10 {
        (('0' as u8) + d) as char
    } else {
        (('a' as u8) + d - 10) as char
    }
}

/// Two hexadecimal digits of `b`, high digit first.
pub open spec fn hex_byte(b: u8) -> Seq<char> {
    seq![hex_char(b / 16), hex_char(b % 16)]
}

/// Text of instruction `op` in front of its operand: the mnemonic, a tab
/// and the operand prefix.
pub open spec fn mnemonic(op: u8) -> Seq<char> {
    match op {
        0x00 => "NOP"@,
        0x01 => "LXI\tB,#$"@,
        0x02 => "STAX\tB"@,
        0x03 => "INX\tB"@,
        0x04 => "INR\tB"@,
        0x05 => "DCR\tB"@,
        0x06 => "MVI\tB,#$"@,
        0x07 => "RLC"@,
        0x08 => "NOP"@,
        0x09 => "DAD\tB"@,
        0x0A => "LDAX\tB"@,
        0x0B => "DCX\tB"@,
        0x0C => "INR\tC"@,
        0x0D => "DCR\tC"@,
        0x0E => "MVI\tC,#$"@,
        0x0F => "RRC"@,
        0x10 => "NOP"@,
        0x11 => "LXI\tD,#$"@,
        0x12 => "STAX\tD"@,
        0x13 => "INX\tD"@,
        0x14 => "INR\tD"@,
        0x15 => "DCR\tD"@,
        0x16 => "MVI\tD,#$"@,
        0x17 => "RAL"@,
        0x18 => "NOP"@,
        0x19 => "DAD\tD"@,
        0x1A => "LDAX\tD"@,
        0x1B => "DCX\tD"@,
        0x1C => "INR\tE"@,
        0x1D => "DCR\tE"@,
        0x1E => "MVI\tE,#$"@,
        0x1F => "RAR"@,
        0x20 => "NOP"@,
        0x21 => "LXI\tH,#$"@,
        0x22 => "SHLD\tH,#$"@,
        0x23 => "INX\tH"@,
        0x24 => "INR\tH"@,
        0x25 => "DCR\tH"@,
        0x26 => "MVI\tH,#$"@,
        0x27 => "DAA"@,
        0x28 => "NOP"@,
        0x29 => "DAD\tH"@,
        0x2A => "LHLD\t$"@,
        0x2B => "DCX\tH"@,
        0x2C => "INR\tL"@,
        0x2D => "DCR\tL"@,
        0x2E => "MVI\tL,#$"@,
        0x2F => "CMA"@,
        0x30 => "NOP"@,
        0x31 => "LXI\tSP,#$"@,
        0x32 => "STA\t$"@,
        0x33 => "INX\tSP"@,
        0x34 => "INR\tM"@,
        0x35 => "DCR\tM"@,
        0x36 => "MVI\tM,#$"@,
        0x37 => "STC"@,
        0x38 => "NOP"@,
        0x39 => "DAD\tSP"@,
        0x3A => "LDA\t$"@,
        0x3B => "DCX\tSP"@,
        0x3C => "INR\tA"@,
        0x3D => "DCR\tA"@,
        0x3E => "MVI\tA,#$"@,
        0x3F => "CMC"@,
        0x40 => "MOV\tB,B"@,
        0x41 => "MOV\tB,C"@,
        0x42 => "MOV\tB,D"@,
        0x43 => "MOV\tB,E"@,
        0x44 => "MOV\tB,H"@,
        0x45 => "MOV\tB,L"@,
        0x46 => "MOV\tB,M"@,
        0x47 => "MOV\tB,A"@,
        0x48 => "MOV\tC,B"@,
        0x49 => "MOV\tC,C"@,
        0x4A => "MOV\tC,D"@,
        0x4B => "MOV\tC,E"@,
        0x4C => "MOV\tC,H"@,
        0x4D => "MOV\tC,L"@,
        0x4E => "MOV\tC,M"@,
        0x4F => "MOV\tC,A"@,
        0x50 => "MOV\tD,B"@,
        0x51 => "MOV\tD,C"@,
        0x52 => "MOV\tD,D"@,
        0x53 => "MOV\tD,E"@,
        0x54 => "MOV\tD,H"@,
        0x55 => "MOV\tD,L"@,
        0x56 => "MOV\tD,M"@,
        0x57 => "MOV\tD,A"@,
        0x58 => "MOV\tE,B"@,
        0x59 => "MOV\tE,C"@,
        0x5A => "MOV\tE,D"@,
        0x5B => "MOV\tE,E"@,
        0x5C => "MOV\tE,H"@,
        0x5D => "MOV\tE,L"@,
        0x5E => "MOV\tE,M"@,
        0x5F => "MOV\tE,A"@,
        0x60 => "MOV\tH,B"@,
        0x61 => "MOV\tH,C"@,
        0x62 => "MOV\tH,D"@,
        0x63 => "MOV\tH,E"@,
        0x64 => "MOV\tH,H"@,
        0x65 => "MOV\tH,L"@,
        0x66 => "MOV\tH,M"@,
        0x67 => "MOV\tH,A"@,
        0x68 => "MOV\tL,B"@,
        0x69 => "MOV\tL,C"@,
        0x6A => "MOV\tL,D"@,
        0x6B => "MOV\tL,E"@,
        0x6C => "MOV\tL,H"@,
        0x6D => "MOV\tL,L"@,
        0x6E => "MOV\tL,M"@,
        0x6F => "MOV\tL,A"@,
        0x70 => "MOV\tM,B"@,
        0x71 => "MOV\tM,C"@,
        0x72 => "MOV\tM,D"@,
        0x73 => "MOV\tM,E"@,
        0x74 => "MOV\tM,H"@,
        0x75 => "MOV\tM,L"@,
        0x76 => "HLT"@,
        0x77 => "MOV\tM,A"@,
        0x78 => "MOV\tA,B"@,
        0x79 => "MOV\tA,C"@,
        0x7A => "MOV\tA,D"@,
        0x7B => "MOV\tA,E"@,
        0x7C => "MOV\tA,H"@,
        0x7D => "MOV\tA,L"@,
        0x7E => "MOV\tA,M"@,
        0x7F => "MOV\tA,A"@,
        0x80 => "ADD\tB"@,
        0x81 => "ADD\tC"@,
        0x82 => "ADD\tD"@,
        0x83 => "ADD\tE"@,
        0x84 => "ADD\tH"@,
        0x85 => "ADD\tL"@,
        0x86 => "ADD\tM"@,
        0x87 => "ADD\tA"@,
        0x88 => "ADC\tB"@,
        0x89 => "ADC\tC"@,
        0x8A => "ADC\tD"@,
        0x8B => "ADC\tE"@,
        0x8C => "ADC\tH"@,
        0x8D => "ADC\tL"@,
        0x8E => "ADC\tM"@,
        0x8F => "ADC\tA"@,
        0x90 => "SUB\tB"@,
        0x91 => "SUB\tC"@,
        0x92 => "SUB\tD"@,
        0x93 => "SUB\tE"@,
        0x94 => "SUB\tH"@,
        0x95 => "SUB\tL"@,
        0x96 => "SUB\tM"@,
        0x97 => "SUB\tA"@,
        0x98 => "SBB\tB"@,
        0x99 => "SBB\tC"@,
        0x9A => "SBB\tD"@,
        0x9B => "SBB\tE"@,
        0x9C => "SBB\tH"@,
        0x9D => "SBB\tL"@,
        0x9E => "SBB\tM"@,
        0x9F => "SBB\tA"@,
        0xA0 => "ANA\tB"@,
        0xA1 => "ANA\tC"@,
        0xA2 => "ANA\tD"@,
        0xA3 => "ANA\tE"@,
        0xA4 => "ANA\tH"@,
        0xA5 => "ANA\tL"@,
        0xA6 => "ANA\tM"@,
        0xA7 => "ANA\tA"@,
        0xA8 => "XRA\tB"@,
        0xA9 => "XRA\tC"@,
        0xAA => "XRA\tD"@,
        0xAB => "XRA\tE"@,
        0xAC => "XRA\tH"@,
        0xAD => "XRA\tL"@,
        0xAE => "XRA\tM"@,
        0xAF => "XRA\tA"@,
        0xB0 => "ORA\tB"@,
        0xB1 => "ORA\tC"@,
        0xB2 => "ORA\tD"@,
        0xB3 => "ORA\tE"@,
        0xB4 => "ORA\tH"@,
        0xB5 => "ORA\tL"@,
        0xB6 => "ORA\tM"@,
        0xB7 => "ORA\tA"@,
        0xB8 => "CMP\tB"@,
        0xB9 => "CMP\tC"@,
        0xBA => "CMP\tD"@,
        0xBB => "CMP\tE"@,
        0xBC => "CMP\tH"@,
        0xBD => "CMP\tL"@,
        0xBE => "CMP\tM"@,
        0xBF => "CMP\tA"@,
        0xC0 => "RNZ"@,
        0xC1 => "POP\tB"@,
        0xC2 => "JNZ\t$"@,
        0xC3 => "JMP\t$"@,
        0xC4 => "CNZ\t$"@,
        0xC5 => "PUSH\tB"@,
        0xC6 => "ADI\t$"@,
        0xC7 => "RST\t0"@,
        0xC8 => "RZ"@,
        0xC9 => "RET"@,
        0xCA => "JZ\t\t$"@,
        0xCB => "NOP"@,
        0xCC => "CZ\t\t$"@,
        0xCD => "CALL\t$"@,
        0xCE => "ACI\t$"@,
        0xCF => "RST\t1"@,
        0xD0 => "RNC"@,
        0xD1 => "POP\tD"@,
        0xD2 => "JNC\t$"@,
        0xD3 => "OUT\t$"@,
        0xD4 => "CNC\t$"@,
        0xD5 => "PUSH\tD"@,
        0xD6 => "SUI\t$"@,
        0xD7 => "RST\t2"@,
        0xD8 => "RC"@,
        0xD9 => "NOP"@,
        0xDA => "JC\t\t$"@,
        0xDB => "IN\t\t$"@,
        0xDC => "CC\t\t$"@,
        0xDD => "NOP"@,
        0xDE => "SBI\t$"@,
        0xDF => "RST\t3"@,
        0xE0 => "RPO"@,
        0xE1 => "POP\tH"@,
        0xE2 => "JPO\t$"@,
        0xE3 => "XTHL"@,
        0xE4 => "CPO\t$"@,
        0xE5 => "PUSH\tH"@,
        0xE6 => "ANI\t$"@,
        0xE7 => "RST\t4"@,
        0xE8 => "RPE"@,
        0xE9 => "PCHL"@,
        0xEA => "JPE\t$"@,
        0xEB => "XCHG"@,
        0xEC => "CPE\t$"@,
        0xED => "NOP"@,
        0xEE => "XRI\t$"@,
        0xEF => "RST\t5"@,
        0xF0 => "RP"@,
        0xF1 => "POP\tPSW"@,
        0xF2 => "JP\t\t$"@,
        0xF3 => "DI"@,
        0xF4 => "CP\t\t$"@,
        0xF5 => "PUSH\tPSW"@,
        0xF6 => "ORI\t$"@,
        0xF7 => "RST\t6"@,
        0xF8 => "RM"@,
        0xF9 => "SPHL"@,
        0xFA => "JM\t\t$"@,
        0xFB => "EI"@,
        0xFC => "CM\t\t$"@,
        0xFD => "NOP"@,
        0xFE => "CPI\t$"@,
        _ => "RST\t7"@,
    }
}

/// Register by its three-bit code as the assembler writes it; M is the byte at HL.
pub open spec fn reg_name(code: u8) -> Seq<char> {
    if code == 0 {
        "B"@
    } else if code == 1 {
        "C"@
    } else if code == 2 {
        "D"@
    } else if code == 3 {
        "E"@
    } else if code == 4 {
        "H"@
    } else if code == 5 {
        "L"@
    } else if code == 6 {
        "M"@
    } else {
        "A"@
    }
}

/// Register pair by its two-bit code in LXI, DAD, INX and DCX.
pub open spec fn pair_name(code: u8) -> Seq<char> {
    if code == 0 {
        "B"@
    } else if code == 1 {
        "D"@
    } else if code == 2 {
        "H"@
    } else {
        "SP"@
    }
}

/// Register pair by its two-bit code in PUSH and POP.
pub open spec fn stack_pair_name(code: u8) -> Seq<char> {
    if code == 0 {
        "B"@
    } else if code == 1 {
        "D"@
    } else if code == 2 {
        "H"@
    } else {
        "PSW"@
    }
}

/// Condition by its three-bit code.
pub open spec fn cond_name(code: u8) -> Seq<char> {
    if code == 0 {
        "NZ"@
    } else if code == 1 {
        "Z"@
    } else if code == 2 {
        "NC"@
    } else if code == 3 {
        "C"@
    } else if code == 4 {
        "PO"@
    } else if code == 5 {
        "PE"@
    } else if code == 6 {
        "P"@
    } else {
        "M"@
    }
}

/// Accumulator operation on a register, by its three-bit code.
pub open spec fn alu_name(code: u8) -> Seq<char> {
    if code == 0 {
        "ADD"@
    } else if code == 1 {
        "ADC"@
    } else if code == 2 {
        "SUB"@
    } else if code == 3 {
        "SBB"@
    } else if code == 4 {
        "ANA"@
    } else if code == 5 {
        "XRA"@
    } else if code == 6 {
        "ORA"@
    } else {
        "CMP"@
    }
}

/// Accumulator operation on an immediate byte, by its three-bit code.
pub open spec fn alu_imm_name(code: u8) -> Seq<char> {
    if code == 0 {
        "ADI"@
    } else if code == 1 {
        "ACI"@
    } else if code == 2 {
        "SUI"@
    } else if code == 3 {
        "SBI"@
    } else if code == 4 {
        "ANI"@
    } else if code == 5 {
        "XRI"@
    } else if code == 6 {
        "ORI"@
    } else {
        "CPI"@
    }
}

/// Accumulator rotation or flag operation of opcodes 0x07 - 0x3F, by its three-bit code.
pub open spec fn misc_name(code: u8) -> Seq<char> {
    if code == 0 {
        "RLC"@
    } else if code == 1 {
        "RRC"@
    } else if code == 2 {
        "RAL"@
    } else if code == 3 {
        "RAR"@
    } else if code == 4 {
        "DAA"@
    } else if code == 5 {
        "CMA"@
    } else if code == 6 {
        "STC"@
    } else {
        "CMC"@
    }
}

/// Load or store of opcodes 0x02 - 0x3A, by its three-bit code.
pub open spec fn load_store_name(code: u8) -> Seq<char> {
    if code == 0 {
        "STAX\tB"@
    } else if code == 1 {
        "LDAX\tB"@
    } else if code == 2 {
        "STAX\tD"@
    } else if code == 3 {
        "LDAX\tD"@
    } else if code == 4 {
        "SHLD\tH,#$"@
    } else if code == 5 {
        "LHLD\t$"@
    } else if code == 6 {
        "STA\t$"@
    } else {
        "LDA\t$"@
    }
}

/// Opcode 0xC3 - 0xFB in steps of 8, by its three-bit code.
pub open spec fn jmp_io_name(code: u8) -> Seq<char> {
    if code == 0 {
        "JMP\t$"@
    } else if code == 1 {
        "NOP"@
    } else if code == 2 {
        "OUT\t$"@
    } else if code == 3 {
        "IN\t\t$"@
    } else if code == 4 {
        "XTHL"@
    } else if code == 5 {
        "XCHG"@
    } else if code == 6 {
        "DI"@
    } else {
        "EI"@
    }
}

/// Decimal digit of `code`.
pub open spec fn digit_name(code: u8) -> Seq<char> {
    if code == 0 {
        "0"@
    } else if code == 1 {
        "1"@
    } else if code == 2 {
        "2"@
    } else if code == 3 {
        "3"@
    } else if code == 4 {
        "4"@
    } else if code == 5 {
        "5"@
    } else if code == 6 {
        "6"@
    } else {
        "7"@
    }
}

/// Tabs from a two- or three-letter jump or call mnemonic to its address.
pub open spec fn address_tab(name: Seq<char>) -> Seq<char> {
    if name.len() == 2 {
        "\t\t$"@
    } else {
        "\t$"@
    }
}

/// Text of opcode `op` read off its bit fields: `y` the low three bits,
/// `d` the middle three, `p` the upper two of those.
pub open spec fn field_text(op: u8) -> Seq<char> {
    let y = op % 8;
    let d = op / 8 % 8;
    let p = op / 16 % 4;
    if op < 0x40 {
        if y == 0 {
            "NOP"@
        } else if y == 1 {
            if d % 2 == 0 {
                "LXI\t"@ + pair_name(p) + ",#$"@
            } else {
                "DAD\t"@ + pair_name(p)
            }
        } else if y == 2 {
            load_store_name(d)
        } else if y == 3 {
            if d % 2 == 0 {
                "INX\t"@ + pair_name(p)
            } else {
                "DCX\t"@ + pair_name(p)
            }
        } else if y == 4 {
            "INR\t"@ + reg_name(d)
        } else if y == 5 {
            "DCR\t"@ + reg_name(d)
        } else if y == 6 {
            "MVI\t"@ + reg_name(d) + ",#$"@
        } else {
            misc_name(d)
        }
    } else if op < 0x80 {
        if op == 0x76 {
            "HLT"@
        } else {
            "MOV\t"@ + reg_name(d) + ","@ + reg_name(y)
        }
    } else if op < 0xC0 {
        alu_name(d) + "\t"@ + reg_name(y)
    } else if y == 0 {
        "R"@ + cond_name(d)
    } else if y == 1 {
        if d % 2 == 0 {
            "POP\t"@ + stack_pair_name(p)
        } else if d == 1 {
            "RET"@
        } else if d == 5 {
            "PCHL"@
        } else if d == 7 {
            "SPHL"@
        } else {
            "NOP"@
        }
    } else if y == 2 {
        "J"@ + cond_name(d) + address_tab("J"@ + cond_name(d))
    } else if y == 3 {
        jmp_io_name(d)
    } else if y == 4 {
        "C"@ + cond_name(d) + address_tab("C"@ + cond_name(d))
    } else if y == 5 {
        if d % 2 == 0 {
            "PUSH\t"@ + stack_pair_name(p)
        } else if d == 1 {
            "CALL\t$"@
        } else {
            "NOP"@
        }
    } else if y == 6 {
        alu_imm_name(d) + "\t$"@
    } else {
        "RST\t"@ + digit_name(d)
    }
}

#[verifier::rlimit(40)]
proof fn lemma_field_text_0(op: u8)
    requires
        0 <= op < 32,
    ensures
        mnemonic(op) == field_text(op),
        (instr_size(op) > 1) == (mnemonic(op).last() == '$'),
{
    reveal_strlit(",");
    reveal_strlit(",#$");
    reveal_strlit("0");
    reveal_strlit("1");
    reveal_strlit("2");
    reveal_strlit("3");
    reveal_strlit("4");
    reveal_strlit("5");
    reveal_strlit("6");
    reveal_strlit("7");
    reveal_strlit("A");
    reveal_strlit("ACI");
    reveal_strlit("ADC");
    reveal_strlit("ADD");
    reveal_strlit("ADI");
    reveal_strlit("ANA");
    reveal_strlit("ANI");
    reveal_strlit("B");
    reveal_strlit("C");
    reveal_strlit("CALL\t$");
    reveal_strlit("CMA");
    reveal_strlit("CMC");
    reveal_strlit("CMP");
    reveal_strlit("CPI");
    reveal_strlit("D");
    reveal_strlit("DAA");
    reveal_strlit("DAD\t");
    reveal_strlit("DCR\t");
    reveal_strlit("DCX\t");
    reveal_strlit("DI");
    reveal_strlit("E");
    reveal_strlit("EI");
    reveal_strlit("H");
    reveal_strlit("HLT");
    reveal_strlit("INR\t");
    reveal_strlit("INX\t");
    reveal_strlit("IN\t\t$");
    reveal_strlit("J");
    reveal_strlit("JMP\t$");
    reveal_strlit("L");
    reveal_strlit("LDAX\tB");
    reveal_strlit("LDAX\tD");
    reveal_strlit("LDA\t$");
    reveal_strlit("LHLD\t$");
    reveal_strlit("LXI\t");
    reveal_strlit("M");
    reveal_strlit("MOV\t");
    reveal_strlit("MVI\t");
    reveal_strlit("NC");
    reveal_strlit("NOP");
    reveal_strlit("NZ");
    reveal_strlit("ORA");
    reveal_strlit("ORI");
    reveal_strlit("OUT\t$");
    reveal_strlit("P");
    reveal_strlit("PCHL");
    reveal_strlit("PE");
    reveal_strlit("PO");
    reveal_strlit("POP\t");
    reveal_strlit("PSW");
    reveal_strlit("PUSH\t");
    reveal_strlit("R");
    reveal_strlit("RAL");
    reveal_strlit("RAR");
    reveal_strlit("RET");
    reveal_strlit("RLC");
    reveal_strlit("RRC");
    reveal_strlit("RST\t");
    reveal_strlit("SBB");
    reveal_strlit("SBI");
    reveal_strlit("SHLD\tH,#$");
    reveal_strlit("SP");
    reveal_strlit("SPHL");
    reveal_strlit("STAX\tB");
    reveal_strlit("STAX\tD");
    reveal_strlit("STA\t$");
    reveal_strlit("STC");
    reveal_strlit("SUB");
    reveal_strlit("SUI");
    reveal_strlit("XCHG");
    reveal_strlit("XRA");
    reveal_strlit("XRI");
    reveal_strlit("XTHL");
    reveal_strlit("Z");
    reveal_strlit("\t");
    reveal_strlit("\t$");
    reveal_strlit("\t\t$");
    if op == 0x00 {
        reveal_strlit("NOP");
        assert(mnemonic(0x00) =~= field_text(0x00));
    } else if op == 0x01 {
        reveal_strlit("LXI\tB,#$");
        assert(mnemonic(0x01) =~= field_text(0x01));
    } else if op == 0x02 {
        reveal_strlit("STAX\tB");
        assert(mnemonic(0x02) =~= field_text(0x02));
    } else if op == 0x03 {
        reveal_strlit("INX\tB");
        assert(mnemonic(0x03) =~= field_text(0x03));
    } else if op == 0x04 {
        reveal_strlit("INR\tB");
        assert(mnemonic(0x04) =~= field_text(0x04));
    } else if op == 0x05 {
        reveal_strlit("DCR\tB");
        assert(mnemonic(0x05) =~= field_text(0x05));
    } else if op == 0x06 {
        reveal_strlit("MVI\tB,#$");
        assert(mnemonic(0x06) =~= field_text(0x06));
    } else if op == 0x07 {
        reveal_strlit("RLC");
        assert(mnemonic(0x07) =~= field_text(0x07));
    } else if op == 0x08 {
        reveal_strlit("NOP");
        assert(mnemonic(0x08) =~= field_text(0x08));
    } else if op == 0x09 {
        reveal_strlit("DAD\tB");
        assert(mnemonic(0x09) =~= field_text(0x09));
    } else if op == 0x0A {
        reveal_strlit("LDAX\tB");
        assert(mnemonic(0x0A) =~= field_text(0x0A));
    } else if op == 0x0B {
        reveal_strlit("DCX\tB");
        assert(mnemonic(0x0B) =~= field_text(0x0B));
    } else if op == 0x0C {
        reveal_strlit("INR\tC");
        assert(mnemonic(0x0C) =~= field_text(0x0C));
    } else if op == 0x0D {
        reveal_strlit("DCR\tC");
        assert(mnemonic(0x0D) =~= field_text(0x0D));
    } else if op == 0x0E {
        reveal_strlit("MVI\tC,#$");
        assert(mnemonic(0x0E) =~= field_text(0x0E));
    } else if op == 0x0F {
        reveal_strlit("RRC");
        assert(mnemonic(0x0F) =~= field_text(0x0F));
    } else if op == 0x10 {
        reveal_strlit("NOP");
        assert(mnemonic(0x10) =~= field_text(0x10));
    } else if op == 0x11 {
        reveal_strlit("LXI\tD,#$");
        assert(mnemonic(0x11) =~= field_text(0x11));
    } else if op == 0x12 {
        reveal_strlit("STAX\tD");
        assert(mnemonic(0x12) =~= field_text(0x12));
    } else if op == 0x13 {
        reveal_strlit("INX\tD");
        assert(mnemonic(0x13) =~= field_text(0x13));
    } else if op == 0x14 {
        reveal_strlit("INR\tD");
        assert(mnemonic(0x14) =~= field_text(0x14));
    } else if op == 0x15 {
        reveal_strlit("DCR\tD");
        assert(mnemonic(0x15) =~= field_text(0x15));
    } else if op == 0x16 {
        reveal_strlit("MVI\tD,#$");
        assert(mnemonic(0x16) =~= field_text(0x16));
    } else if op == 0x17 {
        reveal_strlit("RAL");
        assert(mnemonic(0x17) =~= field_text(0x17));
    } else if op == 0x18 {
        reveal_strlit("NOP");
        assert(mnemonic(0x18) =~= field_text(0x18));
    } else if op == 0x19 {
        reveal_strlit("DAD\tD");
        assert(mnemonic(0x19) =~= field_text(0x19));
    } else if op == 0x1A {
        reveal_strlit("LDAX\tD");
        assert(mnemonic(0x1A) =~= field_text(0x1A));
    } else if op == 0x1B {
        reveal_strlit("DCX\tD");
        assert(mnemonic(0x1B) =~= field_text(0x1B));
    } else if op == 0x1C {
        reveal_strlit("INR\tE");
        assert(mnemonic(0x1C) =~= field_text(0x1C));
    } else if op == 0x1D {
        reveal_strlit("DCR\tE");
        assert(mnemonic(0x1D) =~= field_text(0x1D));
    } else if op == 0x1E {
        reveal_strlit("MVI\tE,#$");
        assert(mnemonic(0x1E) =~= field_text(0x1E));
    } else if op == 0x1F {
        reveal_strlit("RAR");
        assert(mnemonic(0x1F) =~= field_text(0x1F));
    }
}

#[verifier::rlimit(40)]
proof fn lemma_field_text_1(op: u8)
    requires
        32 <= op < 64,
    ensures
        mnemonic(op) == field_text(op),
        (instr_size(op) > 1) == (mnemonic(op).last() == '$'),
{
    reveal_strlit(",");
    reveal_strlit(",#$");
    reveal_strlit("0");
    reveal_strlit("1");
    reveal_strlit("2");
    reveal_strlit("3");
    reveal_strlit("4");
    reveal_strlit("5");
    reveal_strlit("6");
    reveal_strlit("7");
    reveal_strlit("A");
    reveal_strlit("ACI");
    reveal_strlit("ADC");
    reveal_strlit("ADD");
    reveal_strlit("ADI");
    reveal_strlit("ANA");
    reveal_strlit("ANI");
    reveal_strlit("B");
    reveal_strlit("C");
    reveal_strlit("CALL\t$");
    reveal_strlit("CMA");
    reveal_strlit("CMC");
    reveal_strlit("CMP");
    reveal_strlit("CPI");
    reveal_strlit("D");
    reveal_strlit("DAA");
    reveal_strlit("DAD\t");
    reveal_strlit("DCR\t");
    reveal_strlit("DCX\t");
    reveal_strlit("DI");
    reveal_strlit("E");
    reveal_strlit("EI");
    reveal_strlit("H");
    reveal_strlit("HLT");
    reveal_strlit("INR\t");
    reveal_strlit("INX\t");
    reveal_strlit("IN\t\t$");
    reveal_strlit("J");
    reveal_strlit("JMP\t$");
    reveal_strlit("L");
    reveal_strlit("LDAX\tB");
    reveal_strlit("LDAX\tD");
    reveal_strlit("LDA\t$");
    reveal_strlit("LHLD\t$");
    reveal_strlit("LXI\t");
    reveal_strlit("M");
    reveal_strlit("MOV\t");
    reveal_strlit("MVI\t");
    reveal_strlit("NC");
    reveal_strlit("NOP");
    reveal_strlit("NZ");
    reveal_strlit("ORA");
    reveal_strlit("ORI");
    reveal_strlit("OUT\t$");
    reveal_strlit("P");
    reveal_strlit("PCHL");
    reveal_strlit("PE");
    reveal_strlit("PO");
    reveal_strlit("POP\t");
    reveal_strlit("PSW");
    reveal_strlit("PUSH\t");
    reveal_strlit("R");
    reveal_strlit("RAL");
    reveal_strlit("RAR");
    reveal_strlit("RET");
    reveal_strlit("RLC");
    reveal_strlit("RRC");
    reveal_strlit("RST\t");
    reveal_strlit("SBB");
    reveal_strlit("SBI");
    reveal_strlit("SHLD\tH,#$");
    reveal_strlit("SP");
    reveal_strlit("SPHL");
    reveal_strlit("STAX\tB");
    reveal_strlit("STAX\tD");
    reveal_strlit("STA\t$");
    reveal_strlit("STC");
    reveal_strlit("SUB");
    reveal_strlit("SUI");
    reveal_strlit("XCHG");
    reveal_strlit("XRA");
    reveal_strlit("XRI");
    reveal_strlit("XTHL");
    reveal_strlit("Z");
    reveal_strlit("\t");
    reveal_strlit("\t$");
    reveal_strlit("\t\t$");
    if op == 0x20 {
        reveal_strlit("NOP");
        assert(mnemonic(0x20) =~= field_text(0x20));
    } else if op == 0x21 {
        reveal_strlit("LXI\tH,#$");
        assert(mnemonic(0x21) =~= field_text(0x21));
    } else if op == 0x22 {
        reveal_strlit("SHLD\tH,#$");
        assert(mnemonic(0x22) =~= field_text(0x22));
    } else if op == 0x23 {
        reveal_strlit("INX\tH");
        assert(mnemonic(0x23) =~= field_text(0x23));
    } else if op == 0x24 {
        reveal_strlit("INR\tH");
        assert(mnemonic(0x24) =~= field_text(0x24));
    } else if op == 0x25 {
        reveal_strlit("DCR\tH");
        assert(mnemonic(0x25) =~= field_text(0x25));
    } else if op == 0x26 {
        reveal_strlit("MVI\tH,#$");
        assert(mnemonic(0x26) =~= field_text(0x26));
    } else if op == 0x27 {
        reveal_strlit("DAA");
        assert(mnemonic(0x27) =~= field_text(0x27));
    } else if op == 0x28 {
        reveal_strlit("NOP");
        assert(mnemonic(0x28) =~= field_text(0x28));
    } else if op == 0x29 {
        reveal_strlit("DAD\tH");
        assert(mnemonic(0x29) =~= field_text(0x29));
    } else if op == 0x2A {
        reveal_strlit("LHLD\t$");
        assert(mnemonic(0x2A) =~= field_text(0x2A));
    } else if op == 0x2B {
        reveal_strlit("DCX\tH");
        assert(mnemonic(0x2B) =~= field_text(0x2B));
    } else if op == 0x2C {
        reveal_strlit("INR\tL");
        assert(mnemonic(0x2C) =~= field_text(0x2C));
    } else if op == 0x2D {
        reveal_strlit("DCR\tL");
        assert(mnemonic(0x2D) =~= field_text(0x2D));
    } else if op == 0x2E {
        reveal_strlit("MVI\tL,#$");
        assert(mnemonic(0x2E) =~= field_text(0x2E));
    } else if op == 0x2F {
        reveal_strlit("CMA");
        assert(mnemonic(0x2F) =~= field_text(0x2F));
    } else if op == 0x30 {
        reveal_strlit("NOP");
        assert(mnemonic(0x30) =~= field_text(0x30));
    } else if op == 0x31 {
        reveal_strlit("LXI\tSP,#$");
        assert(mnemonic(0x31) =~= field_text(0x31));
    } else if op == 0x32 {
        reveal_strlit("STA\t$");
        assert(mnemonic(0x32) =~= field_text(0x32));
    } else if op == 0x33 {
        reveal_strlit("INX\tSP");
        assert(mnemonic(0x33) =~= field_text(0x33));
    } else if op == 0x34 {
        reveal_strlit("INR\tM");
        assert(mnemonic(0x34) =~= field_text(0x34));
    } else if op == 0x35 {
        reveal_strlit("DCR\tM");
        assert(mnemonic(0x35) =~= field_text(0x35));
    } else if op == 0x36 {
        reveal_strlit("MVI\tM,#$");
        assert(mnemonic(0x36) =~= field_text(0x36));
    } else if op == 0x37 {
        reveal_strlit("STC");
        assert(mnemonic(0x37) =~= field_text(0x37));
    } else if op == 0x38 {
        reveal_strlit("NOP");
        assert(mnemonic(0x38) =~= field_text(0x38));
    } else if op == 0x39 {
        reveal_strlit("DAD\tSP");
        assert(mnemonic(0x39) =~= field_text(0x39));
    } else if op == 0x3A {
        reveal_strlit("LDA\t$");
        assert(mnemonic(0x3A) =~= field_text(0x3A));
    } else if op == 0x3B {
        reveal_strlit("DCX\tSP");
        assert(mnemonic(0x3B) =~= field_text(0x3B));
    } else if op == 0x3C {
        reveal_strlit("INR\tA");
        assert(mnemonic(0x3C) =~= field_text(0x3C));
    } else if op == 0x3D {
        reveal_strlit("DCR\tA");
        assert(mnemonic(0x3D) =~= field_text(0x3D));
    } else if op == 0x3E {
        reveal_strlit("MVI\tA,#$");
        assert(mnemonic(0x3E) =~= field_text(0x3E));
    } else if op == 0x3F {
        reveal_strlit("CMC");
        assert(mnemonic(0x3F) =~= field_text(0x3F));
    }
}

#[verifier::rlimit(40)]
proof fn lemma_field_text_2(op: u8)
    requires
        64 <= op < 96,
    ensures
        mnemonic(op) == field_text(op),
        (instr_size(op) > 1) == (mnemonic(op).last() == '$'),
{
    reveal_strlit(",");
    reveal_strlit(",#$");
    reveal_strlit("0");
    reveal_strlit("1");
    reveal_strlit("2");
    reveal_strlit("3");
    reveal_strlit("4");
    reveal_strlit("5");
    reveal_strlit("6");
    reveal_strlit("7");
    reveal_strlit("A");
    reveal_strlit("ACI");
    reveal_strlit("ADC");
    reveal_strlit("ADD");
    reveal_strlit("ADI");
    reveal_strlit("ANA");
    reveal_strlit("ANI");
    reveal_strlit("B");
    reveal_strlit("C");
    reveal_strlit("CALL\t$");
    reveal_strlit("CMA");
    reveal_strlit("CMC");
    reveal_strlit("CMP");
    reveal_strlit("CPI");
    reveal_strlit("D");
    reveal_strlit("DAA");
    reveal_strlit("DAD\t");
    reveal_strlit("DCR\t");
    reveal_strlit("DCX\t");
    reveal_strlit("DI");
    reveal_strlit("E");
    reveal_strlit("EI");
    reveal_strlit("H");
    reveal_strlit("HLT");
    reveal_strlit("INR\t");
    reveal_strlit("INX\t");
    reveal_strlit("IN\t\t$");
    reveal_strlit("J");
    reveal_strlit("JMP\t$");
    reveal_strlit("L");
    reveal_strlit("LDAX\tB");
    reveal_strlit("LDAX\tD");
    reveal_strlit("LDA\t$");
    reveal_strlit("LHLD\t$");
    reveal_strlit("LXI\t");
    reveal_strlit("M");
    reveal_strlit("MOV\t");
    reveal_strlit("MVI\t");
    reveal_strlit("NC");
    reveal_strlit("NOP");
    reveal_strlit("NZ");
    reveal_strlit("ORA");
    reveal_strlit("ORI");
    reveal_strlit("OUT\t$");
    reveal_strlit("P");
    reveal_strlit("PCHL");
    reveal_strlit("PE");
    reveal_strlit("PO");
    reveal_strlit("POP\t");
    reveal_strlit("PSW");
    reveal_strlit("PUSH\t");
    reveal_strlit("R");
    reveal_strlit("RAL");
    reveal_strlit("RAR");
    reveal_strlit("RET");
    reveal_strlit("RLC");
    reveal_strlit("RRC");
    reveal_strlit("RST\t");
    reveal_strlit("SBB");
    reveal_strlit("SBI");
    reveal_strlit("SHLD\tH,#$");
    reveal_strlit("SP");
    reveal_strlit("SPHL");
    reveal_strlit("STAX\tB");
    reveal_strlit("STAX\tD");
    reveal_strlit("STA\t$");
    reveal_strlit("STC");
    reveal_strlit("SUB");
    reveal_strlit("SUI");
    reveal_strlit("XCHG");
    reveal_strlit("XRA");
    reveal_strlit("XRI");
    reveal_strlit("XTHL");
    reveal_strlit("Z");
    reveal_strlit("\t");
    reveal_strlit("\t$");
    reveal_strlit("\t\t$");
    if op == 0x40 {
        reveal_strlit("MOV\tB,B");
        assert(mnemonic(0x40) =~= field_text(0x40));
    } else if op == 0x41 {
        reveal_strlit("MOV\tB,C");
        assert(mnemonic(0x41) =~= field_text(0x41));
    } else if op == 0x42 {
        reveal_strlit("MOV\tB,D");
        assert(mnemonic(0x42) =~= field_text(0x42));
    } else if op == 0x43 {
        reveal_strlit("MOV\tB,E");
        assert(mnemonic(0x43) =~= field_text(0x43));
    } else if op == 0x44 {
        reveal_strlit("MOV\tB,H");
        assert(mnemonic(0x44) =~= field_text(0x44));
    } else if op == 0x45 {
        reveal_strlit("MOV\tB,L");
        assert(mnemonic(0x45) =~= field_text(0x45));
    } else if op == 0x46 {
        reveal_strlit("MOV\tB,M");
        assert(mnemonic(0x46) =~= field_text(0x46));
    } else if op == 0x47 {
        reveal_strlit("MOV\tB,A");
        assert(mnemonic(0x47) =~= field_text(0x47));
    } else if op == 0x48 {
        reveal_strlit("MOV\tC,B");
        assert(mnemonic(0x48) =~= field_text(0x48));
    } else if op == 0x49 {
        reveal_strlit("MOV\tC,C");
        assert(mnemonic(0x49) =~= field_text(0x49));
    } else if op == 0x4A {
        reveal_strlit("MOV\tC,D");
        assert(mnemonic(0x4A) =~= field_text(0x4A));
    } else if op == 0x4B {
        reveal_strlit("MOV\tC,E");
        assert(mnemonic(0x4B) =~= field_text(0x4B));
    } else if op == 0x4C {
        reveal_strlit("MOV\tC,H");
        assert(mnemonic(0x4C) =~= field_text(0x4C));
    } else if op == 0x4D {
        reveal_strlit("MOV\tC,L");
        assert(mnemonic(0x4D) =~= field_text(0x4D));
    } else if op == 0x4E {
        reveal_strlit("MOV\tC,M");
        assert(mnemonic(0x4E) =~= field_text(0x4E));
    } else if op == 0x4F {
        reveal_strlit("MOV\tC,A");
        assert(mnemonic(0x4F) =~= field_text(0x4F));
    } else if op == 0x50 {
        reveal_strlit("MOV\tD,B");
        assert(mnemonic(0x50) =~= field_text(0x50));
    } else if op == 0x51 {
        reveal_strlit("MOV\tD,C");
        assert(mnemonic(0x51) =~= field_text(0x51));
    } else if op == 0x52 {
        reveal_strlit("MOV\tD,D");
        assert(mnemonic(0x52) =~= field_text(0x52));
    } else if op == 0x53 {
        reveal_strlit("MOV\tD,E");
        assert(mnemonic(0x53) =~= field_text(0x53));
    } else if op == 0x54 {
        reveal_strlit("MOV\tD,H");
        assert(mnemonic(0x54) =~= field_text(0x54));
    } else if op == 0x55 {
        reveal_strlit("MOV\tD,L");
        assert(mnemonic(0x55) =~= field_text(0x55));
    } else if op == 0x56 {
        reveal_strlit("MOV\tD,M");
        assert(mnemonic(0x56) =~= field_text(0x56));
    } else if op == 0x57 {
        reveal_strlit("MOV\tD,A");
        assert(mnemonic(0x57) =~= field_text(0x57));
    } else if op == 0x58 {
        reveal_strlit("MOV\tE,B");
        assert(mnemonic(0x58) =~= field_text(0x58));
    } else if op == 0x59 {
        reveal_strlit("MOV\tE,C");
        assert(mnemonic(0x59) =~= field_text(0x59));
    } else if op == 0x5A {
        reveal_strlit("MOV\tE,D");
        assert(mnemonic(0x5A) =~= field_text(0x5A));
    } else if op == 0x5B {
        reveal_strlit("MOV\tE,E");
        assert(mnemonic(0x5B) =~= field_text(0x5B));
    } else if op == 0x5C {
        reveal_strlit("MOV\tE,H");
        assert(mnemonic(0x5C) =~= field_text(0x5C));
    } else if op == 0x5D {
        reveal_strlit("MOV\tE,L");
        assert(mnemonic(0x5D) =~= field_text(0x5D));
    } else if op == 0x5E {
        reveal_strlit("MOV\tE,M");
        assert(mnemonic(0x5E) =~= field_text(0x5E));
    } else if op == 0x5F {
        reveal_strlit("MOV\tE,A");
        assert(mnemonic(0x5F) =~= field_text(0x5F));
    }
}

#[verifier::rlimit(40)]
proof fn lemma_field_text_3(op: u8)
    requires
        96 <= op < 128,
    ensures
        mnemonic(op) == field_text(op),
        (instr_size(op) > 1) == (mnemonic(op).last() == '$'),
{
    reveal_strlit(",");
    reveal_strlit(",#$");
    reveal_strlit("0");
    reveal_strlit("1");
    reveal_strlit("2");
    reveal_strlit("3");
    reveal_strlit("4");
    reveal_strlit("5");
    reveal_strlit("6");
    reveal_strlit("7");
    reveal_strlit("A");
    reveal_strlit("ACI");
    reveal_strlit("ADC");
    reveal_strlit("ADD");
    reveal_strlit("ADI");
    reveal_strlit("ANA");
    reveal_strlit("ANI");
    reveal_strlit("B");
    reveal_strlit("C");
    reveal_strlit("CALL\t$");
    reveal_strlit("CMA");
    reveal_strlit("CMC");
    reveal_strlit("CMP");
    reveal_strlit("CPI");
    reveal_strlit("D");
    reveal_strlit("DAA");
    reveal_strlit("DAD\t");
    reveal_strlit("DCR\t");
    reveal_strlit("DCX\t");
    reveal_strlit("DI");
    reveal_strlit("E");
    reveal_strlit("EI");
    reveal_strlit("H");
    reveal_strlit("HLT");
    reveal_strlit("INR\t");
    reveal_strlit("INX\t");
    reveal_strlit("IN\t\t$");
    reveal_strlit("J");
    reveal_strlit("JMP\t$");
    reveal_strlit("L");
    reveal_strlit("LDAX\tB");
    reveal_strlit("LDAX\tD");
    reveal_strlit("LDA\t$");
    reveal_strlit("LHLD\t$");
    reveal_strlit("LXI\t");
    reveal_strlit("M");
    reveal_strlit("MOV\t");
    reveal_strlit("MVI\t");
    reveal_strlit("NC");
    reveal_strlit("NOP");
    reveal_strlit("NZ");
    reveal_strlit("ORA");
    reveal_strlit("ORI");
    reveal_strlit("OUT\t$");
    reveal_strlit("P");
    reveal_strlit("PCHL");
    reveal_strlit("PE");
    reveal_strlit("PO");
    reveal_strlit("POP\t");
    reveal_strlit("PSW");
    reveal_strlit("PUSH\t");
    reveal_strlit("R");
    reveal_strlit("RAL");
    reveal_strlit("RAR");
    reveal_strlit("RET");
    reveal_strlit("RLC");
    reveal_strlit("RRC");
    reveal_strlit("RST\t");
    reveal_strlit("SBB");
    reveal_strlit("SBI");
    reveal_strlit("SHLD\tH,#$");
    reveal_strlit("SP");
    reveal_strlit("SPHL");
    reveal_strlit("STAX\tB");
    reveal_strlit("STAX\tD");
    reveal_strlit("STA\t$");
    reveal_strlit("STC");
    reveal_strlit("SUB");
    reveal_strlit("SUI");
    reveal_strlit("XCHG");
    reveal_strlit("XRA");
    reveal_strlit("XRI");
    reveal_strlit("XTHL");
    reveal_strlit("Z");
    reveal_strlit("\t");
    reveal_strlit("\t$");
    reveal_strlit("\t\t$");
    if op == 0x60 {
        reveal_strlit("MOV\tH,B");
        assert(mnemonic(0x60) =~= field_text(0x60));
    } else if op == 0x61 {
        reveal_strlit("MOV\tH,C");
        assert(mnemonic(0x61) =~= field_text(0x61));
    } else if op == 0x62 {
        reveal_strlit("MOV\tH,D");
        assert(mnemonic(0x62) =~= field_text(0x62));
    } else if op == 0x63 {
        reveal_strlit("MOV\tH,E");
        assert(mnemonic(0x63) =~= field_text(0x63));
    } else if op == 0x64 {
        reveal_strlit("MOV\tH,H");
        assert(mnemonic(0x64) =~= field_text(0x64));
    } else if op == 0x65 {
        reveal_strlit("MOV\tH,L");
        assert(mnemonic(0x65) =~= field_text(0x65));
    } else if op == 0x66 {
        reveal_strlit("MOV\tH,M");
        assert(mnemonic(0x66) =~= field_text(0x66));
    } else if op == 0x67 {
        reveal_strlit("MOV\tH,A");
        assert(mnemonic(0x67) =~= field_text(0x67));
    } else if op == 0x68 {
        reveal_strlit("MOV\tL,B");
        assert(mnemonic(0x68) =~= field_text(0x68));
    } else if op == 0x69 {
        reveal_strlit("MOV\tL,C");
        assert(mnemonic(0x69) =~= field_text(0x69));
    } else if op == 0x6A {
        reveal_strlit("MOV\tL,D");
        assert(mnemonic(0x6A) =~= field_text(0x6A));
    } else if op == 0x6B {
        reveal_strlit("MOV\tL,E");
        assert(mnemonic(0x6B) =~= field_text(0x6B));
    } else if op == 0x6C {
        reveal_strlit("MOV\tL,H");
        assert(mnemonic(0x6C) =~= field_text(0x6C));
    } else if op == 0x6D {
        reveal_strlit("MOV\tL,L");
        assert(mnemonic(0x6D) =~= field_text(0x6D));
    } else if op == 0x6E {
        reveal_strlit("MOV\tL,M");
        assert(mnemonic(0x6E) =~= field_text(0x6E));
    } else if op == 0x6F {
        reveal_strlit("MOV\tL,A");
        assert(mnemonic(0x6F) =~= field_text(0x6F));
    } else if op == 0x70 {
        reveal_strlit("MOV\tM,B");
        assert(mnemonic(0x70) =~= field_text(0x70));
    } else if op == 0x71 {
        reveal_strlit("MOV\tM,C");
        assert(mnemonic(0x71) =~= field_text(0x71));
    } else if op == 0x72 {
        reveal_strlit("MOV\tM,D");
        assert(mnemonic(0x72) =~= field_text(0x72));
    } else if op == 0x73 {
        reveal_strlit("MOV\tM,E");
        assert(mnemonic(0x73) =~= field_text(0x73));
    } else if op == 0x74 {
        reveal_strlit("MOV\tM,H");
        assert(mnemonic(0x74) =~= field_text(0x74));
    } else if op == 0x75 {
        reveal_strlit("MOV\tM,L");
        assert(mnemonic(0x75) =~= field_text(0x75));
    } else if op == 0x76 {
        reveal_strlit("HLT");
        assert(mnemonic(0x76) =~= field_text(0x76));
    } else if op == 0x77 {
        reveal_strlit("MOV\tM,A");
        assert(mnemonic(0x77) =~= field_text(0x77));
    } else if op == 0x78 {
        reveal_strlit("MOV\tA,B");
        assert(mnemonic(0x78) =~= field_text(0x78));
    } else if op == 0x79 {
        reveal_strlit("MOV\tA,C");
        assert(mnemonic(0x79) =~= field_text(0x79));
    } else if op == 0x7A {
        reveal_strlit("MOV\tA,D");
        assert(mnemonic(0x7A) =~= field_text(0x7A));
    } else if op == 0x7B {
        reveal_strlit("MOV\tA,E");
        assert(mnemonic(0x7B) =~= field_text(0x7B));
    } else if op == 0x7C {
        reveal_strlit("MOV\tA,H");
        assert(mnemonic(0x7C) =~= field_text(0x7C));
    } else if op == 0x7D {
        reveal_strlit("MOV\tA,L");
        assert(mnemonic(0x7D) =~= field_text(0x7D));
    } else if op == 0x7E {
        reveal_strlit("MOV\tA,M");
        assert(mnemonic(0x7E) =~= field_text(0x7E));
    } else if op == 0x7F {
        reveal_strlit("MOV\tA,A");
        assert(mnemonic(0x7F) =~= field_text(0x7F));
    }
}

#[verifier::rlimit(40)]
proof fn lemma_field_text_4(op: u8)
    requires
        128 <= op < 160,
    ensures
        mnemonic(op) == field_text(op),
        (instr_size(op) > 1) == (mnemonic(op).last() == '$'),
{
    reveal_strlit(",");
    reveal_strlit(",#$");
    reveal_strlit("0");
    reveal_strlit("1");
    reveal_strlit("2");
    reveal_strlit("3");
    reveal_strlit("4");
    reveal_strlit("5");
    reveal_strlit("6");
    reveal_strlit("7");
    reveal_strlit("A");
    reveal_strlit("ACI");
    reveal_strlit("ADC");
    reveal_strlit("ADD");
    reveal_strlit("ADI");
    reveal_strlit("ANA");
    reveal_strlit("ANI");
    reveal_strlit("B");
    reveal_strlit("C");
    reveal_strlit("CALL\t$");
    reveal_strlit("CMA");
    reveal_strlit("CMC");
    reveal_strlit("CMP");
    reveal_strlit("CPI");
    reveal_strlit("D");
    reveal_strlit("DAA");
    reveal_strlit("DAD\t");
    reveal_strlit("DCR\t");
    reveal_strlit("DCX\t");
    reveal_strlit("DI");
    reveal_strlit("E");
    reveal_strlit("EI");
    reveal_strlit("H");
    reveal_strlit("HLT");
    reveal_strlit("INR\t");
    reveal_strlit("INX\t");
    reveal_strlit("IN\t\t$");
    reveal_strlit("J");
    reveal_strlit("JMP\t$");
    reveal_strlit("L");
    reveal_strlit("LDAX\tB");
    reveal_strlit("LDAX\tD");
    reveal_strlit("LDA\t$");
    reveal_strlit("LHLD\t$");
    reveal_strlit("LXI\t");
    reveal_strlit("M");
    reveal_strlit("MOV\t");
    reveal_strlit("MVI\t");
    reveal_strlit("NC");
    reveal_strlit("NOP");
    reveal_strlit("NZ");
    reveal_strlit("ORA");
    reveal_strlit("ORI");
    reveal_strlit("OUT\t$");
    reveal_strlit("P");
    reveal_strlit("PCHL");
    reveal_strlit("PE");
    reveal_strlit("PO");
    reveal_strlit("POP\t");
    reveal_strlit("PSW");
    reveal_strlit("PUSH\t");
    reveal_strlit("R");
    reveal_strlit("RAL");
    reveal_strlit("RAR");
    reveal_strlit("RET");
    reveal_strlit("RLC");
    reveal_strlit("RRC");
    reveal_strlit("RST\t");
    reveal_strlit("SBB");
    reveal_strlit("SBI");
    reveal_strlit("SHLD\tH,#$");
    reveal_strlit("SP");
    reveal_strlit("SPHL");
    reveal_strlit("STAX\tB");
    reveal_strlit("STAX\tD");
    reveal_strlit("STA\t$");
    reveal_strlit("STC");
    reveal_strlit("SUB");
    reveal_strlit("SUI");
    reveal_strlit("XCHG");
    reveal_strlit("XRA");
    reveal_strlit("XRI");
    reveal_strlit("XTHL");
    reveal_strlit("Z");
    reveal_strlit("\t");
    reveal_strlit("\t$");
    reveal_strlit("\t\t$");
    if op == 0x80 {
        reveal_strlit("ADD\tB");
        assert(mnemonic(0x80) =~= field_text(0x80));
    } else if op == 0x81 {
        reveal_strlit("ADD\tC");
        assert(mnemonic(0x81) =~= field_text(0x81));
    } else if op == 0x82 {
        reveal_strlit("ADD\tD");
        assert(mnemonic(0x82) =~= field_text(0x82));
    } else if op == 0x83 {
        reveal_strlit("ADD\tE");
        assert(mnemonic(0x83) =~= field_text(0x83));
    } else if op == 0x84 {
        reveal_strlit("ADD\tH");
        assert(mnemonic(0x84) =~= field_text(0x84));
    } else if op == 0x85 {
        reveal_strlit("ADD\tL");
        assert(mnemonic(0x85) =~= field_text(0x85));
    } else if op == 0x86 {
        reveal_strlit("ADD\tM");
        assert(mnemonic(0x86) =~= field_text(0x86));
    } else if op == 0x87 {
        reveal_strlit("ADD\tA");
        assert(mnemonic(0x87) =~= field_text(0x87));
    } else if op == 0x88 {
        reveal_strlit("ADC\tB");
        assert(mnemonic(0x88) =~= field_text(0x88));
    } else if op == 0x89 {
        reveal_strlit("ADC\tC");
        assert(mnemonic(0x89) =~= field_text(0x89));
    } else if op == 0x8A {
        reveal_strlit("ADC\tD");
        assert(mnemonic(0x8A) =~= field_text(0x8A));
    } else if op == 0x8B {
        reveal_strlit("ADC\tE");
        assert(mnemonic(0x8B) =~= field_text(0x8B));
    } else if op == 0x8C {
        reveal_strlit("ADC\tH");
        assert(mnemonic(0x8C) =~= field_text(0x8C));
    } else if op == 0x8D {
        reveal_strlit("ADC\tL");
        assert(mnemonic(0x8D) =~= field_text(0x8D));
    } else if op == 0x8E {
        reveal_strlit("ADC\tM");
        assert(mnemonic(0x8E) =~= field_text(0x8E));
    } else if op == 0x8F {
        reveal_strlit("ADC\tA");
        assert(mnemonic(0x8F) =~= field_text(0x8F));
    } else if op == 0x90 {
        reveal_strlit("SUB\tB");
        assert(mnemonic(0x90) =~= field_text(0x90));
    } else if op == 0x91 {
        reveal_strlit("SUB\tC");
        assert(mnemonic(0x91) =~= field_text(0x91));
    } else if op == 0x92 {
        reveal_strlit("SUB\tD");
        assert(mnemonic(0x92) =~= field_text(0x92));
    } else if op == 0x93 {
        reveal_strlit("SUB\tE");
        assert(mnemonic(0x93) =~= field_text(0x93));
    } else if op == 0x94 {
        reveal_strlit("SUB\tH");
        assert(mnemonic(0x94) =~= field_text(0x94));
    } else if op == 0x95 {
        reveal_strlit("SUB\tL");
        assert(mnemonic(0x95) =~= field_text(0x95));
    } else if op == 0x96 {
        reveal_strlit("SUB\tM");
        assert(mnemonic(0x96) =~= field_text(0x96));
    } else if op == 0x97 {
        reveal_strlit("SUB\tA");
        assert(mnemonic(0x97) =~= field_text(0x97));
    } else if op == 0x98 {
        reveal_strlit("SBB\tB");
        assert(mnemonic(0x98) =~= field_text(0x98));
    } else if op == 0x99 {
        reveal_strlit("SBB\tC");
        assert(mnemonic(0x99) =~= field_text(0x99));
    } else if op == 0x9A {
        reveal_strlit("SBB\tD");
        assert(mnemonic(0x9A) =~= field_text(0x9A));
    } else if op == 0x9B {
        reveal_strlit("SBB\tE");
        assert(mnemonic(0x9B) =~= field_text(0x9B));
    } else if op == 0x9C {
        reveal_strlit("SBB\tH");
        assert(mnemonic(0x9C) =~= field_text(0x9C));
    } else if op == 0x9D {
        reveal_strlit("SBB\tL");
        assert(mnemonic(0x9D) =~= field_text(0x9D));
    } else if op == 0x9E {
        reveal_strlit("SBB\tM");
        assert(mnemonic(0x9E) =~= field_text(0x9E));
    } else if op == 0x9F {
        reveal_strlit("SBB\tA");
        assert(mnemonic(0x9F) =~= field_text(0x9F));
    }
}

#[verifier::rlimit(40)]
proof fn lemma_field_text_5(op: u8)
    requires
        160 <= op < 192,
    ensures
        mnemonic(op) == field_text(op),
        (instr_size(op) > 1) == (mnemonic(op).last() == '$'),
{
    reveal_strlit(",");
    reveal_strlit(",#$");
    reveal_strlit("0");
    reveal_strlit("1");
    reveal_strlit("2");
    reveal_strlit("3");
    reveal_strlit("4");
    reveal_strlit("5");
    reveal_strlit("6");
    reveal_strlit("7");
    reveal_strlit("A");
    reveal_strlit("ACI");
    reveal_strlit("ADC");
    reveal_strlit("ADD");
    reveal_strlit("ADI");
    reveal_strlit("ANA");
    reveal_strlit("ANI");
    reveal_strlit("B");
    reveal_strlit("C");
    reveal_strlit("CALL\t$");
    reveal_strlit("CMA");
    reveal_strlit("CMC");
    reveal_strlit("CMP");
    reveal_strlit("CPI");
    reveal_strlit("D");
    reveal_strlit("DAA");
    reveal_strlit("DAD\t");
    reveal_strlit("DCR\t");
    reveal_strlit("DCX\t");
    reveal_strlit("DI");
    reveal_strlit("E");
    reveal_strlit("EI");
    reveal_strlit("H");
    reveal_strlit("HLT");
    reveal_strlit("INR\t");
    reveal_strlit("INX\t");
    reveal_strlit("IN\t\t$");
    reveal_strlit("J");
    reveal_strlit("JMP\t$");
    reveal_strlit("L");
    reveal_strlit("LDAX\tB");
    reveal_strlit("LDAX\tD");
    reveal_strlit("LDA\t$");
    reveal_strlit("LHLD\t$");
    reveal_strlit("LXI\t");
    reveal_strlit("M");
    reveal_strlit("MOV\t");
    reveal_strlit("MVI\t");
    reveal_strlit("NC");
    reveal_strlit("NOP");
    reveal_strlit("NZ");
    reveal_strlit("ORA");
    reveal_strlit("ORI");
    reveal_strlit("OUT\t$");
    reveal_strlit("P");
    reveal_strlit("PCHL");
    reveal_strlit("PE");
    reveal_strlit("PO");
    reveal_strlit("POP\t");
    reveal_strlit("PSW");
    reveal_strlit("PUSH\t");
    reveal_strlit("R");
    reveal_strlit("RAL");
    reveal_strlit("RAR");
    reveal_strlit("RET");
    reveal_strlit("RLC");
    reveal_strlit("RRC");
    reveal_strlit("RST\t");
    reveal_strlit("SBB");
    reveal_strlit("SBI");
    reveal_strlit("SHLD\tH,#$");
    reveal_strlit("SP");
    reveal_strlit("SPHL");
    reveal_strlit("STAX\tB");
    reveal_strlit("STAX\tD");
    reveal_strlit("STA\t$");
    reveal_strlit("STC");
    reveal_strlit("SUB");
    reveal_strlit("SUI");
    reveal_strlit("XCHG");
    reveal_strlit("XRA");
    reveal_strlit("XRI");
    reveal_strlit("XTHL");
    reveal_strlit("Z");
    reveal_strlit("\t");
    reveal_strlit("\t$");
    reveal_strlit("\t\t$");
    if op == 0xA0 {
        reveal_strlit("ANA\tB");
        assert(mnemonic(0xA0) =~= field_text(0xA0));
    } else if op == 0xA1 {
        reveal_strlit("ANA\tC");
        assert(mnemonic(0xA1) =~= field_text(0xA1));
    } else if op == 0xA2 {
        reveal_strlit("ANA\tD");
        assert(mnemonic(0xA2) =~= field_text(0xA2));
    } else if op == 0xA3 {
        reveal_strlit("ANA\tE");
        assert(mnemonic(0xA3) =~= field_text(0xA3));
    } else if op == 0xA4 {
        reveal_strlit("ANA\tH");
        assert(mnemonic(0xA4) =~= field_text(0xA4));
    } else if op == 0xA5 {
        reveal_strlit("ANA\tL");
        assert(mnemonic(0xA5) =~= field_text(0xA5));
    } else if op == 0xA6 {
        reveal_strlit("ANA\tM");
        assert(mnemonic(0xA6) =~= field_text(0xA6));
    } else if op == 0xA7 {
        reveal_strlit("ANA\tA");
        assert(mnemonic(0xA7) =~= field_text(0xA7));
    } else if op == 0xA8 {
        reveal_strlit("XRA\tB");
        assert(mnemonic(0xA8) =~= field_text(0xA8));
    } else if op == 0xA9 {
        reveal_strlit("XRA\tC");
        assert(mnemonic(0xA9) =~= field_text(0xA9));
    } else if op == 0xAA {
        reveal_strlit("XRA\tD");
        assert(mnemonic(0xAA) =~= field_text(0xAA));
    } else if op == 0xAB {
        reveal_strlit("XRA\tE");
        assert(mnemonic(0xAB) =~= field_text(0xAB));
    } else if op == 0xAC {
        reveal_strlit("XRA\tH");
        assert(mnemonic(0xAC) =~= field_text(0xAC));
    } else if op == 0xAD {
        reveal_strlit("XRA\tL");
        assert(mnemonic(0xAD) =~= field_text(0xAD));
    } else if op == 0xAE {
        reveal_strlit("XRA\tM");
        assert(mnemonic(0xAE) =~= field_text(0xAE));
    } else if op == 0xAF {
        reveal_strlit("XRA\tA");
        assert(mnemonic(0xAF) =~= field_text(0xAF));
    } else if op == 0xB0 {
        reveal_strlit("ORA\tB");
        assert(mnemonic(0xB0) =~= field_text(0xB0));
    } else if op == 0xB1 {
        reveal_strlit("ORA\tC");
        assert(mnemonic(0xB1) =~= field_text(0xB1));
    } else if op == 0xB2 {
        reveal_strlit("ORA\tD");
        assert(mnemonic(0xB2) =~= field_text(0xB2));
    } else if op == 0xB3 {
        reveal_strlit("ORA\tE");
        assert(mnemonic(0xB3) =~= field_text(0xB3));
    } else if op == 0xB4 {
        reveal_strlit("ORA\tH");
        assert(mnemonic(0xB4) =~= field_text(0xB4));
    } else if op == 0xB5 {
        reveal_strlit("ORA\tL");
        assert(mnemonic(0xB5) =~= field_text(0xB5));
    } else if op == 0xB6 {
        reveal_strlit("ORA\tM");
        assert(mnemonic(0xB6) =~= field_text(0xB6));
    } else if op == 0xB7 {
        reveal_strlit("ORA\tA");
        assert(mnemonic(0xB7) =~= field_text(0xB7));
    } else if op == 0xB8 {
        reveal_strlit("CMP\tB");
        assert(mnemonic(0xB8) =~= field_text(0xB8));
    } else if op == 0xB9 {
        reveal_strlit("CMP\tC");
        assert(mnemonic(0xB9) =~= field_text(0xB9));
    } else if op == 0xBA {
        reveal_strlit("CMP\tD");
        assert(mnemonic(0xBA) =~= field_text(0xBA));
    } else if op == 0xBB {
        reveal_strlit("CMP\tE");
        assert(mnemonic(0xBB) =~= field_text(0xBB));
    } else if op == 0xBC {
        reveal_strlit("CMP\tH");
        assert(mnemonic(0xBC) =~= field_text(0xBC));
    } else if op == 0xBD {
        reveal_strlit("CMP\tL");
        assert(mnemonic(0xBD) =~= field_text(0xBD));
    } else if op == 0xBE {
        reveal_strlit("CMP\tM");
        assert(mnemonic(0xBE) =~= field_text(0xBE));
    } else if op == 0xBF {
        reveal_strlit("CMP\tA");
        assert(mnemonic(0xBF) =~= field_text(0xBF));
    }
}

#[verifier::rlimit(40)]
proof fn lemma_field_text_6(op: u8)
    requires
        192 <= op < 224,
    ensures
        mnemonic(op) == field_text(op),
        (instr_size(op) > 1) == (mnemonic(op).last() == '$'),
{
    reveal_strlit(",");
    reveal_strlit(",#$");
    reveal_strlit("0");
    reveal_strlit("1");
    reveal_strlit("2");
    reveal_strlit("3");
    reveal_strlit("4");
    reveal_strlit("5");
    reveal_strlit("6");
    reveal_strlit("7");
    reveal_strlit("A");
    reveal_strlit("ACI");
    reveal_strlit("ADC");
    reveal_strlit("ADD");
    reveal_strlit("ADI");
    reveal_strlit("ANA");
    reveal_strlit("ANI");
    reveal_strlit("B");
    reveal_strlit("C");
    reveal_strlit("CALL\t$");
    reveal_strlit("CMA");
    reveal_strlit("CMC");
    reveal_strlit("CMP");
    reveal_strlit("CPI");
    reveal_strlit("D");
    reveal_strlit("DAA");
    reveal_strlit("DAD\t");
    reveal_strlit("DCR\t");
    reveal_strlit("DCX\t");
    reveal_strlit("DI");
    reveal_strlit("E");
    reveal_strlit("EI");
    reveal_strlit("H");
    reveal_strlit("HLT");
    reveal_strlit("INR\t");
    reveal_strlit("INX\t");
    reveal_strlit("IN\t\t$");
    reveal_strlit("J");
    reveal_strlit("JMP\t$");
    reveal_strlit("L");
    reveal_strlit("LDAX\tB");
    reveal_strlit("LDAX\tD");
    reveal_strlit("LDA\t$");
    reveal_strlit("LHLD\t$");
    reveal_strlit("LXI\t");
    reveal_strlit("M");
    reveal_strlit("MOV\t");
    reveal_strlit("MVI\t");
    reveal_strlit("NC");
    reveal_strlit("NOP");
    reveal_strlit("NZ");
    reveal_strlit("ORA");
    reveal_strlit("ORI");
    reveal_strlit("OUT\t$");
    reveal_strlit("P");
    reveal_strlit("PCHL");
    reveal_strlit("PE");
    reveal_strlit("PO");
    reveal_strlit("POP\t");
    reveal_strlit("PSW");
    reveal_strlit("PUSH\t");
    reveal_strlit("R");
    reveal_strlit("RAL");
    reveal_strlit("RAR");
    reveal_strlit("RET");
    reveal_strlit("RLC");
    reveal_strlit("RRC");
    reveal_strlit("RST\t");
    reveal_strlit("SBB");
    reveal_strlit("SBI");
    reveal_strlit("SHLD\tH,#$");
    reveal_strlit("SP");
    reveal_strlit("SPHL");
    reveal_strlit("STAX\tB");
    reveal_strlit("STAX\tD");
    reveal_strlit("STA\t$");
    reveal_strlit("STC");
    reveal_strlit("SUB");
    reveal_strlit("SUI");
    reveal_strlit("XCHG");
    reveal_strlit("XRA");
    reveal_strlit("XRI");
    reveal_strlit("XTHL");
    reveal_strlit("Z");
    reveal_strlit("\t");
    reveal_strlit("\t$");
    reveal_strlit("\t\t$");
    if op == 0xC0 {
        reveal_strlit("RNZ");
        assert(mnemonic(0xC0) =~= field_text(0xC0));
    } else if op == 0xC1 {
        reveal_strlit("POP\tB");
        assert(mnemonic(0xC1) =~= field_text(0xC1));
    } else if op == 0xC2 {
        reveal_strlit("JNZ\t$");
        assert(mnemonic(0xC2) =~= field_text(0xC2));
    } else if op == 0xC3 {
        reveal_strlit("JMP\t$");
        assert(mnemonic(0xC3) =~= field_text(0xC3));
    } else if op == 0xC4 {
        reveal_strlit("CNZ\t$");
        assert(mnemonic(0xC4) =~= field_text(0xC4));
    } else if op == 0xC5 {
        reveal_strlit("PUSH\tB");
        assert(mnemonic(0xC5) =~= field_text(0xC5));
    } else if op == 0xC6 {
        reveal_strlit("ADI\t$");
        assert(mnemonic(0xC6) =~= field_text(0xC6));
    } else if op == 0xC7 {
        reveal_strlit("RST\t0");
        assert(mnemonic(0xC7) =~= field_text(0xC7));
    } else if op == 0xC8 {
        reveal_strlit("RZ");
        assert(mnemonic(0xC8) =~= field_text(0xC8));
    } else if op == 0xC9 {
        reveal_strlit("RET");
        assert(mnemonic(0xC9) =~= field_text(0xC9));
    } else if op == 0xCA {
        reveal_strlit("JZ\t\t$");
        assert(mnemonic(0xCA) =~= field_text(0xCA));
    } else if op == 0xCB {
        reveal_strlit("NOP");
        assert(mnemonic(0xCB) =~= field_text(0xCB));
    } else if op == 0xCC {
        reveal_strlit("CZ\t\t$");
        assert(mnemonic(0xCC) =~= field_text(0xCC));
    } else if op == 0xCD {
        reveal_strlit("CALL\t$");
        assert(mnemonic(0xCD) =~= field_text(0xCD));
    } else if op == 0xCE {
        reveal_strlit("ACI\t$");
        assert(mnemonic(0xCE) =~= field_text(0xCE));
    } else if op == 0xCF {
        reveal_strlit("RST\t1");
        assert(mnemonic(0xCF) =~= field_text(0xCF));
    } else if op == 0xD0 {
        reveal_strlit("RNC");
        assert(mnemonic(0xD0) =~= field_text(0xD0));
    } else if op == 0xD1 {
        reveal_strlit("POP\tD");
        assert(mnemonic(0xD1) =~= field_text(0xD1));
    } else if op == 0xD2 {
        reveal_strlit("JNC\t$");
        assert(mnemonic(0xD2) =~= field_text(0xD2));
    } else if op == 0xD3 {
        reveal_strlit("OUT\t$");
        assert(mnemonic(0xD3) =~= field_text(0xD3));
    } else if op == 0xD4 {
        reveal_strlit("CNC\t$");
        assert(mnemonic(0xD4) =~= field_text(0xD4));
    } else if op == 0xD5 {
        reveal_strlit("PUSH\tD");
        assert(mnemonic(0xD5) =~= field_text(0xD5));
    } else if op == 0xD6 {
        reveal_strlit("SUI\t$");
        assert(mnemonic(0xD6) =~= field_text(0xD6));
    } else if op == 0xD7 {
        reveal_strlit("RST\t2");
        assert(mnemonic(0xD7) =~= field_text(0xD7));
    } else if op == 0xD8 {
        reveal_strlit("RC");
        assert(mnemonic(0xD8) =~= field_text(0xD8));
    } else if op == 0xD9 {
        reveal_strlit("NOP");
        assert(mnemonic(0xD9) =~= field_text(0xD9));
    } else if op == 0xDA {
        reveal_strlit("JC\t\t$");
        assert(mnemonic(0xDA) =~= field_text(0xDA));
    } else if op == 0xDB {
        reveal_strlit("IN\t\t$");
        assert(mnemonic(0xDB) =~= field_text(0xDB));
    } else if op == 0xDC {
        reveal_strlit("CC\t\t$");
        assert(mnemonic(0xDC) =~= field_text(0xDC));
    } else if op == 0xDD {
        reveal_strlit("NOP");
        assert(mnemonic(0xDD) =~= field_text(0xDD));
    } else if op == 0xDE {
        reveal_strlit("SBI\t$");
        assert(mnemonic(0xDE) =~= field_text(0xDE));
    } else if op == 0xDF {
        reveal_strlit("RST\t3");
        assert(mnemonic(0xDF) =~= field_text(0xDF));
    }
}

#[verifier::rlimit(40)]
proof fn lemma_field_text_7(op: u8)
    requires
        224 <= op < 256,
    ensures
        mnemonic(op) == field_text(op),
        (instr_size(op) > 1) == (mnemonic(op).last() == '$'),
{
    reveal_strlit(",");
    reveal_strlit(",#$");
    reveal_strlit("0");
    reveal_strlit("1");
    reveal_strlit("2");
    reveal_strlit("3");
    reveal_strlit("4");
    reveal_strlit("5");
    reveal_strlit("6");
    reveal_strlit("7");
    reveal_strlit("A");
    reveal_strlit("ACI");
    reveal_strlit("ADC");
    reveal_strlit("ADD");
    reveal_strlit("ADI");
    reveal_strlit("ANA");
    reveal_strlit("ANI");
    reveal_strlit("B");
    reveal_strlit("C");
    reveal_strlit("CALL\t$");
    reveal_strlit("CMA");
    reveal_strlit("CMC");
    reveal_strlit("CMP");
    reveal_strlit("CPI");
    reveal_strlit("D");
    reveal_strlit("DAA");
    reveal_strlit("DAD\t");
    reveal_strlit("DCR\t");
    reveal_strlit("DCX\t");
    reveal_strlit("DI");
    reveal_strlit("E");
    reveal_strlit("EI");
    reveal_strlit("H");
    reveal_strlit("HLT");
    reveal_strlit("INR\t");
    reveal_strlit("INX\t");
    reveal_strlit("IN\t\t$");
    reveal_strlit("J");
    reveal_strlit("JMP\t$");
    reveal_strlit("L");
    reveal_strlit("LDAX\tB");
    reveal_strlit("LDAX\tD");
    reveal_strlit("LDA\t$");
    reveal_strlit("LHLD\t$");
    reveal_strlit("LXI\t");
    reveal_strlit("M");
    reveal_strlit("MOV\t");
    reveal_strlit("MVI\t");
    reveal_strlit("NC");
    reveal_strlit("NOP");
    reveal_strlit("NZ");
    reveal_strlit("ORA");
    reveal_strlit("ORI");
    reveal_strlit("OUT\t$");
    reveal_strlit("P");
    reveal_strlit("PCHL");
    reveal_strlit("PE");
    reveal_strlit("PO");
    reveal_strlit("POP\t");
    reveal_strlit("PSW");
    reveal_strlit("PUSH\t");
    reveal_strlit("R");
    reveal_strlit("RAL");
    reveal_strlit("RAR");
    reveal_strlit("RET");
    reveal_strlit("RLC");
    reveal_strlit("RRC");
    reveal_strlit("RST\t");
    reveal_strlit("SBB");
    reveal_strlit("SBI");
    reveal_strlit("SHLD\tH,#$");
    reveal_strlit("SP");
    reveal_strlit("SPHL");
    reveal_strlit("STAX\tB");
    reveal_strlit("STAX\tD");
    reveal_strlit("STA\t$");
    reveal_strlit("STC");
    reveal_strlit("SUB");
    reveal_strlit("SUI");
    reveal_strlit("XCHG");
    reveal_strlit("XRA");
    reveal_strlit("XRI");
    reveal_strlit("XTHL");
    reveal_strlit("Z");
    reveal_strlit("\t");
    reveal_strlit("\t$");
    reveal_strlit("\t\t$");
    if op == 0xE0 {
        reveal_strlit("RPO");
        assert(mnemonic(0xE0) =~= field_text(0xE0));
    } else if op == 0xE1 {
        reveal_strlit("POP\tH");
        assert(mnemonic(0xE1) =~= field_text(0xE1));
    } else if op == 0xE2 {
        reveal_strlit("JPO\t$");
        assert(mnemonic(0xE2) =~= field_text(0xE2));
    } else if op == 0xE3 {
        reveal_strlit("XTHL");
        assert(mnemonic(0xE3) =~= field_text(0xE3));
    } else if op == 0xE4 {
        reveal_strlit("CPO\t$");
        assert(mnemonic(0xE4) =~= field_text(0xE4));
    } else if op == 0xE5 {
        reveal_strlit("PUSH\tH");
        assert(mnemonic(0xE5) =~= field_text(0xE5));
    } else if op == 0xE6 {
        reveal_strlit("ANI\t$");
        assert(mnemonic(0xE6) =~= field_text(0xE6));
    } else if op == 0xE7 {
        reveal_strlit("RST\t4");
        assert(mnemonic(0xE7) =~= field_text(0xE7));
    } else if op == 0xE8 {
        reveal_strlit("RPE");
        assert(mnemonic(0xE8) =~= field_text(0xE8));
    } else if op == 0xE9 {
        reveal_strlit("PCHL");
        assert(mnemonic(0xE9) =~= field_text(0xE9));
    } else if op == 0xEA {
        reveal_strlit("JPE\t$");
        assert(mnemonic(0xEA) =~= field_text(0xEA));
    } else if op == 0xEB {
        reveal_strlit("XCHG");
        assert(mnemonic(0xEB) =~= field_text(0xEB));
    } else if op == 0xEC {
        reveal_strlit("CPE\t$");
        assert(mnemonic(0xEC) =~= field_text(0xEC));
    } else if op == 0xED {
        reveal_strlit("NOP");
        assert(mnemonic(0xED) =~= field_text(0xED));
    } else if op == 0xEE {
        reveal_strlit("XRI\t$");
        assert(mnemonic(0xEE) =~= field_text(0xEE));
    } else if op == 0xEF {
        reveal_strlit("RST\t5");
        assert(mnemonic(0xEF) =~= field_text(0xEF));
    } else if op == 0xF0 {
        reveal_strlit("RP");
        assert(mnemonic(0xF0) =~= field_text(0xF0));
    } else if op == 0xF1 {
        reveal_strlit("POP\tPSW");
        assert(mnemonic(0xF1) =~= field_text(0xF1));
    } else if op == 0xF2 {
        reveal_strlit("JP\t\t$");
        assert(mnemonic(0xF2) =~= field_text(0xF2));
    } else if op == 0xF3 {
        reveal_strlit("DI");
        assert(mnemonic(0xF3) =~= field_text(0xF3));
    } else if op == 0xF4 {
        reveal_strlit("CP\t\t$");
        assert(mnemonic(0xF4) =~= field_text(0xF4));
    } else if op == 0xF5 {
        reveal_strlit("PUSH\tPSW");
        assert(mnemonic(0xF5) =~= field_text(0xF5));
    } else if op == 0xF6 {
        reveal_strlit("ORI\t$");
        assert(mnemonic(0xF6) =~= field_text(0xF6));
    } else if op == 0xF7 {
        reveal_strlit("RST\t6");
        assert(mnemonic(0xF7) =~= field_text(0xF7));
    } else if op == 0xF8 {
        reveal_strlit("RM");
        assert(mnemonic(0xF8) =~= field_text(0xF8));
    } else if op == 0xF9 {
        reveal_strlit("SPHL");
        assert(mnemonic(0xF9) =~= field_text(0xF9));
    } else if op == 0xFA {
        reveal_strlit("JM\t\t$");
        assert(mnemonic(0xFA) =~= field_text(0xFA));
    } else if op == 0xFB {
        reveal_strlit("EI");
        assert(mnemonic(0xFB) =~= field_text(0xFB));
    } else if op == 0xFC {
        reveal_strlit("CM\t\t$");
        assert(mnemonic(0xFC) =~= field_text(0xFC));
    } else if op == 0xFD {
        reveal_strlit("NOP");
        assert(mnemonic(0xFD) =~= field_text(0xFD));
    } else if op == 0xFE {
        reveal_strlit("CPI\t$");
        assert(mnemonic(0xFE) =~= field_text(0xFE));
    } else if op == 0xFF {
        reveal_strlit("RST\t7");
        assert(mnemonic(0xFF) =~= field_text(0xFF));
    }
}

/// Every opcode's text is read off its bit fields as the 8080 assembler
/// names them, and ends in `$`, where the operand follows, exactly when the
/// instruction has operand bytes.
///
/// In detail: every opcode's text is read off its bit fields as the 8080 assembler
/// names them: MOV d,s from the two register fields, the accumulator
/// operations and conditions from the middle field, register pairs from
/// the upper two bits, and the irregular opcodes by their own names.
pub proof fn lemma_mnemonic_by_fields(op: u8)
    ensures
        mnemonic(op) == field_text(op),
        (instr_size(op) > 1) == (mnemonic(op).last() == '$'),
{
    if op < 32 {
        lemma_field_text_0(op);
    } else if op < 64 {
        lemma_field_text_1(op);
    } else if op < 96 {
        lemma_field_text_2(op);
    } else if op < 128 {
        lemma_field_text_3(op);
    } else if op < 160 {
        lemma_field_text_4(op);
    } else if op < 192 {
        lemma_field_text_5(op);
    } else if op < 224 {
        lemma_field_text_6(op);
    } else {
        lemma_field_text_7(op);
    }
}

/// Disassembly of the instruction at `pc` in `code`: its length and its
/// text, the operand written as hexadecimal digits, high byte first.
pub open spec fn disassembly(code: Seq<u8>, pc: int) -> (u8, Seq<char>) {
    let op = code[pc];
    let n = instr_size(op);
    let operand = if n == 3 {
        hex_byte(code[pc + 2]) + hex_byte(code[pc + 1])
    } else if n == 2 {
        hex_byte(code[pc + 1])
    } else {
        Seq::empty()
    };
    (n, mnemonic(op) + operand)
}

/// `n` in lower-case hexadecimal, padded with zeros to at least `width`
/// digits.
pub open spec fn hex_padded(n: nat, width: nat) -> Seq<char>
    decreases n, width,
{
    if n < 16 && width <= 1 {
        seq![hex_char(n as u8)]
    } else {
        hex_padded(n / 16, if width > 0 { (width - 1) as nat } else { 0 }) + seq![hex_char((n % 16) as u8)]
    }
}

/// Every instruction met when reading `code` from `pc` on, one after the
/// other, ends inside `code`.
pub open spec fn fits(code: Seq<u8>, pc: int) -> bool
    decreases code.len() - pc,
{
    if pc < 0 || pc >= code.len() {
        true
    } else {
        pc + instr_size(code[pc]) <= code.len() && fits(code, pc + instr_size(code[pc]))
    }
}

/// Listing of `code` from `pc` on: a line per instruction, its address in
/// hexadecimal (at least four digits), a space and its text. It stops at an
/// instruction that runs past the end of `code`.
pub open spec fn listing(code: Seq<u8>, pc: int) -> Seq<char>
    decreases code.len() - pc,
{
    if pc < 0 || pc >= code.len() || pc + instr_size(code[pc]) > code.len() {
        Seq::empty()
    } else {
        hex_padded(pc as nat, 4) + seq![' '] + disassembly(code, pc).1 + seq!['\n'] + listing(
            code,
            pc + instr_size(code[pc]),
        )
    }
}

/// Length in bytes of instruction `op`.
pub fn opcode_size(op: u8) -> (n: u8)
    ensures
        n == instr_size(op),
{
    if op == 0x01 || op == 0x11 || op == 0x21 || op == 0x22 || op == 0x2A || op == 0x31 || op == 0x32 || op == 0x3A || op == 0xC2 || op == 0xC3 || op == 0xC4 || op == 0xCA || op == 0xCC || op == 0xCD || op == 0xD2 || op == 0xD4 || op == 0xDA || op == 0xDC || op == 0xE2 || op == 0xE4 || op == 0xEA || op == 0xEC || op == 0xF2 || op == 0xF4 || op == 0xFA || op == 0xFC {
        3
    } else if op == 0x06 || op == 0x0E || op == 0x16 || op == 0x1E || op == 0x26 || op == 0x2E || op == 0x36 || op == 0x3E || op == 0xC6 || op == 0xCE || op == 0xD3 || op == 0xD6 || op == 0xDB || op == 0xDE || op == 0xE6 || op == 0xEE || op == 0xF6 || op == 0xFE {
        2
    } else {
        1
    }
}

/// Text of instruction `op` in front of its operand.
pub fn mnemonic_str(op: u8) -> (s: &'static str)
    ensures
        s@ == mnemonic(op),
{
    match op {
        0x00 => "NOP",
        0x01 => "LXI\tB,#$",
        0x02 => "STAX\tB",
        0x03 => "INX\tB",
        0x04 => "INR\tB",
        0x05 => "DCR\tB",
        0x06 => "MVI\tB,#$",
        0x07 => "RLC",
        0x08 => "NOP",
        0x09 => "DAD\tB",
        0x0A => "LDAX\tB",
        0x0B => "DCX\tB",
        0x0C => "INR\tC",
        0x0D => "DCR\tC",
        0x0E => "MVI\tC,#$",
        0x0F => "RRC",
        0x10 => "NOP",
        0x11 => "LXI\tD,#$",
        0x12 => "STAX\tD",
        0x13 => "INX\tD",
        0x14 => "INR\tD",
        0x15 => "DCR\tD",
        0x16 => "MVI\tD,#$",
        0x17 => "RAL",
        0x18 => "NOP",
        0x19 => "DAD\tD",
        0x1A => "LDAX\tD",
        0x1B => "DCX\tD",
        0x1C => "INR\tE",
        0x1D => "DCR\tE",
        0x1E => "MVI\tE,#$",
        0x1F => "RAR",
        0x20 => "NOP",
        0x21 => "LXI\tH,#$",
        0x22 => "SHLD\tH,#$",
        0x23 => "INX\tH",
        0x24 => "INR\tH",
        0x25 => "DCR\tH",
        0x26 => "MVI\tH,#$",
        0x27 => "DAA",
        0x28 => "NOP",
        0x29 => "DAD\tH",
        0x2A => "LHLD\t$",
        0x2B => "DCX\tH",
        0x2C => "INR\tL",
        0x2D => "DCR\tL",
        0x2E => "MVI\tL,#$",
        0x2F => "CMA",
        0x30 => "NOP",
        0x31 => "LXI\tSP,#$",
        0x32 => "STA\t$",
        0x33 => "INX\tSP",
        0x34 => "INR\tM",
        0x35 => "DCR\tM",
        0x36 => "MVI\tM,#$",
        0x37 => "STC",
        0x38 => "NOP",
        0x39 => "DAD\tSP",
        0x3A => "LDA\t$",
        0x3B => "DCX\tSP",
        0x3C => "INR\tA",
        0x3D => "DCR\tA",
        0x3E => "MVI\tA,#$",
        0x3F => "CMC",
        0x40 => "MOV\tB,B",
        0x41 => "MOV\tB,C",
        0x42 => "MOV\tB,D",
        0x43 => "MOV\tB,E",
        0x44 => "MOV\tB,H",
        0x45 => "MOV\tB,L",
        0x46 => "MOV\tB,M",
        0x47 => "MOV\tB,A",
        0x48 => "MOV\tC,B",
        0x49 => "MOV\tC,C",
        0x4A => "MOV\tC,D",
        0x4B => "MOV\tC,E",
        0x4C => "MOV\tC,H",
        0x4D => "MOV\tC,L",
        0x4E => "MOV\tC,M",
        0x4F => "MOV\tC,A",
        0x50 => "MOV\tD,B",
        0x51 => "MOV\tD,C",
        0x52 => "MOV\tD,D",
        0x53 => "MOV\tD,E",
        0x54 => "MOV\tD,H",
        0x55 => "MOV\tD,L",
        0x56 => "MOV\tD,M",
        0x57 => "MOV\tD,A",
        0x58 => "MOV\tE,B",
        0x59 => "MOV\tE,C",
        0x5A => "MOV\tE,D",
        0x5B => "MOV\tE,E",
        0x5C => "MOV\tE,H",
        0x5D => "MOV\tE,L",
        0x5E => "MOV\tE,M",
        0x5F => "MOV\tE,A",
        0x60 => "MOV\tH,B",
        0x61 => "MOV\tH,C",
        0x62 => "MOV\tH,D",
        0x63 => "MOV\tH,E",
        0x64 => "MOV\tH,H",
        0x65 => "MOV\tH,L",
        0x66 => "MOV\tH,M",
        0x67 => "MOV\tH,A",
        0x68 => "MOV\tL,B",
        0x69 => "MOV\tL,C",
        0x6A => "MOV\tL,D",
        0x6B => "MOV\tL,E",
        0x6C => "MOV\tL,H",
        0x6D => "MOV\tL,L",
        0x6E => "MOV\tL,M",
        0x6F => "MOV\tL,A",
        0x70 => "MOV\tM,B",
        0x71 => "MOV\tM,C",
        0x72 => "MOV\tM,D",
        0x73 => "MOV\tM,E",
        0x74 => "MOV\tM,H",
        0x75 => "MOV\tM,L",
        0x76 => "HLT",
        0x77 => "MOV\tM,A",
        0x78 => "MOV\tA,B",
        0x79 => "MOV\tA,C",
        0x7A => "MOV\tA,D",
        0x7B => "MOV\tA,E",
        0x7C => "MOV\tA,H",
        0x7D => "MOV\tA,L",
        0x7E => "MOV\tA,M",
        0x7F => "MOV\tA,A",
        0x80 => "ADD\tB",
        0x81 => "ADD\tC",
        0x82 => "ADD\tD",
        0x83 => "ADD\tE",
        0x84 => "ADD\tH",
        0x85 => "ADD\tL",
        0x86 => "ADD\tM",
        0x87 => "ADD\tA",
        0x88 => "ADC\tB",
        0x89 => "ADC\tC",
        0x8A => "ADC\tD",
        0x8B => "ADC\tE",
        0x8C => "ADC\tH",
        0x8D => "ADC\tL",
        0x8E => "ADC\tM",
        0x8F => "ADC\tA",
        0x90 => "SUB\tB",
        0x91 => "SUB\tC",
        0x92 => "SUB\tD",
        0x93 => "SUB\tE",
        0x94 => "SUB\tH",
        0x95 => "SUB\tL",
        0x96 => "SUB\tM",
        0x97 => "SUB\tA",
        0x98 => "SBB\tB",
        0x99 => "SBB\tC",
        0x9A => "SBB\tD",
        0x9B => "SBB\tE",
        0x9C => "SBB\tH",
        0x9D => "SBB\tL",
        0x9E => "SBB\tM",
        0x9F => "SBB\tA",
        0xA0 => "ANA\tB",
        0xA1 => "ANA\tC",
        0xA2 => "ANA\tD",
        0xA3 => "ANA\tE",
        0xA4 => "ANA\tH",
        0xA5 => "ANA\tL",
        0xA6 => "ANA\tM",
        0xA7 => "ANA\tA",
        0xA8 => "XRA\tB",
        0xA9 => "XRA\tC",
        0xAA => "XRA\tD",
        0xAB => "XRA\tE",
        0xAC => "XRA\tH",
        0xAD => "XRA\tL",
        0xAE => "XRA\tM",
        0xAF => "XRA\tA",
        0xB0 => "ORA\tB",
        0xB1 => "ORA\tC",
        0xB2 => "ORA\tD",
        0xB3 => "ORA\tE",
        0xB4 => "ORA\tH",
        0xB5 => "ORA\tL",
        0xB6 => "ORA\tM",
        0xB7 => "ORA\tA",
        0xB8 => "CMP\tB",
        0xB9 => "CMP\tC",
        0xBA => "CMP\tD",
        0xBB => "CMP\tE",
        0xBC => "CMP\tH",
        0xBD => "CMP\tL",
        0xBE => "CMP\tM",
        0xBF => "CMP\tA",
        0xC0 => "RNZ",
        0xC1 => "POP\tB",
        0xC2 => "JNZ\t$",
        0xC3 => "JMP\t$",
        0xC4 => "CNZ\t$",
        0xC5 => "PUSH\tB",
        0xC6 => "ADI\t$",
        0xC7 => "RST\t0",
        0xC8 => "RZ",
        0xC9 => "RET",
        0xCA => "JZ\t\t$",
        0xCB => "NOP",
        0xCC => "CZ\t\t$",
        0xCD => "CALL\t$",
        0xCE => "ACI\t$",
        0xCF => "RST\t1",
        0xD0 => "RNC",
        0xD1 => "POP\tD",
        0xD2 => "JNC\t$",
        0xD3 => "OUT\t$",
        0xD4 => "CNC\t$",
        0xD5 => "PUSH\tD",
        0xD6 => "SUI\t$",
        0xD7 => "RST\t2",
        0xD8 => "RC",
        0xD9 => "NOP",
        0xDA => "JC\t\t$",
        0xDB => "IN\t\t$",
        0xDC => "CC\t\t$",
        0xDD => "NOP",
        0xDE => "SBI\t$",
        0xDF => "RST\t3",
        0xE0 => "RPO",
        0xE1 => "POP\tH",
        0xE2 => "JPO\t$",
        0xE3 => "XTHL",
        0xE4 => "CPO\t$",
        0xE5 => "PUSH\tH",
        0xE6 => "ANI\t$",
        0xE7 => "RST\t4",
        0xE8 => "RPE",
        0xE9 => "PCHL",
        0xEA => "JPE\t$",
        0xEB => "XCHG",
        0xEC => "CPE\t$",
        0xED => "NOP",
        0xEE => "XRI\t$",
        0xEF => "RST\t5",
        0xF0 => "RP",
        0xF1 => "POP\tPSW",
        0xF2 => "JP\t\t$",
        0xF3 => "DI",
        0xF4 => "CP\t\t$",
        0xF5 => "PUSH\tPSW",
        0xF6 => "ORI\t$",
        0xF7 => "RST\t6",
        0xF8 => "RM",
        0xF9 => "SPHL",
        0xFA => "JM\t\t$",
        0xFB => "EI",
        0xFC => "CM\t\t$",
        0xFD => "NOP",
        0xFE => "CPI\t$",
        _ => "RST\t7",
    }
}

/// One lower-case hexadecimal digit.
fn hex_digit(d: u8) -> (s: &'static str)
    requires
        d < 16,
    ensures
        s@ == seq![hex_char(d)],
{
    proof {
        reveal_strlit("0");
        reveal_strlit("1");
        reveal_strlit("2");
        reveal_strlit("3");
        reveal_strlit("4");
        reveal_strlit("5");
        reveal_strlit("6");
        reveal_strlit("7");
        reveal_strlit("8");
        reveal_strlit("9");
        reveal_strlit("a");
        reveal_strlit("b");
        reveal_strlit("c");
        reveal_strlit("d");
        reveal_strlit("e");
        reveal_strlit("f");
    }
    if d == 0 {
        "0"
    } else if d == 1 {
        "1"
    } else if d == 2 {
        "2"
    } else if d == 3 {
        "3"
    } else if d == 4 {
        "4"
    } else if d == 5 {
        "5"
    } else if d == 6 {
        "6"
    } else if d == 7 {
        "7"
    } else if d == 8 {
        "8"
    } else if d == 9 {
        "9"
    } else if d == 10 {
        "a"
    } else if d == 11 {
        "b"
    } else if d == 12 {
        "c"
    } else if d == 13 {
        "d"
    } else if d == 14 {
        "e"
    } else if d == 15 {
        "f"
    } else {
        "f"
    }
}

/// Appends the two hexadecimal digits of `b`.
fn push_hex(s: &mut String, b: u8)
    ensures
        final(s)@ == old(s)@ + hex_byte(b),
{
    s.append(hex_digit(b / 16));
    s.append(hex_digit(b % 16));
    assert(final(s)@ =~= old(s)@ + hex_byte(b));
}

/// Appends `n` in hexadecimal, padded with zeros to at least `width` digits.
fn push_hex_padded(s: &mut String, n: usize, width: usize)
    ensures
        final(s)@ == old(s)@ + hex_padded(n as nat, width as nat),
    decreases n, width,
{
    if n < 16 && width <= 1 {
        s.append(hex_digit(n as u8));
    } else {
        let w = if width > 0 {
            width - 1
        } else {
            0
        };
        push_hex_padded(s, n / 16, w);
        s.append(hex_digit((n % 16) as u8));
    }
    assert(final(s)@ =~= old(s)@ + hex_padded(n as nat, width as nat));
}

/// Disassembles `rom` from address 0: the listing (see `listing`), and
/// whether every instruction ended inside `rom`. The listing stops at the
/// first instruction that does not.
pub fn disassembly_listing(rom: &[u8]) -> (r: (String, bool))
    ensures
        r.0@ == listing(rom@, 0),
        r.1 == fits(rom@, 0),
{
    let mut text = String::new();
    let mut pc: usize = 0;
    while pc < rom.len()
        invariant
            pc <= rom@.len(),
            text@ + listing(rom@, pc as int) == listing(rom@, 0),
            fits(rom@, 0) == fits(rom@, pc as int),
        decreases rom@.len() - pc,
    {
        let n = opcode_size(rom[pc]) as usize;
        if n > rom.len() - pc {
            return (text, false);
        }
        let (size, instruction) = decode_instruction(rom, pc);
        proof {
            reveal_strlit(" ");
            reveal_strlit("\n");
        }
        let ghost before = text@;
        let ghost line = hex_padded(pc as nat, 4) + seq![' '] + instruction@ + seq!['\n'];
        assert(listing(rom@, pc as int) == line + listing(rom@, pc + n));
        push_hex_padded(&mut text, pc, 4);
        let ghost t1 = text@;
        text.append(" ");
        assert(text@ =~= t1 + seq![' ']);
        let ghost t2 = text@;
        text.append(instruction.as_str());
        assert(text@ =~= t2 + instruction@);
        let ghost t3 = text@;
        text.append("\n");
        assert(text@ =~= t3 + seq!['\n']);
        assert(text@ =~= before + line);
        assert(text@ + listing(rom@, (pc + n) as int) =~= before + listing(rom@, pc as int));
        pc = pc + n;
    }
    assert(text@ + listing(rom@, pc as int) =~= text@);
    (text, true)
}

/// Decodes the instruction at `pc`: its length in bytes and its text.
pub fn decode_instruction(codebuffer: &[u8], pc: usize) -> (r: (u8, String))
    requires
        pc < codebuffer@.len(),
        pc + instr_size(codebuffer@[pc as int]) <= codebuffer@.len(),
    ensures
        r.0 == disassembly(codebuffer@, pc as int).0,
        r.1@ == disassembly(codebuffer@, pc as int).1,
{
    let op = codebuffer[pc];
    let opbytes = opcode_size(op);
    let mut instruction = mnemonic_str(op).to_owned();
    if opbytes == 3 {
        push_hex(&mut instruction, codebuffer[pc + 2]);
        push_hex(&mut instruction, codebuffer[pc + 1]);
        assert(instruction@ =~= mnemonic(op) + (hex_byte(codebuffer@[pc + 2]) + hex_byte(codebuffer@[pc + 1])));
    } else if opbytes == 2 {
        push_hex(&mut instruction, codebuffer[pc + 1]);
    } else {
        assert(instruction@ =~= mnemonic(op) + Seq::<char>::empty());
    }
    (opbytes, instruction)
}

/// Value of a hexadecimal digit character.
pub open spec fn hex_value(c: char) -> int {
    if (c as int) <= ('9' as int) {
        c as int - ('0' as int)
    } else {
        c as int - ('a' as int) + 10
    }
}

/// Value of a string of hexadecimal digits, most significant first.
pub open spec fn hex_number(s: Seq<char>) -> int
    decreases s.len(),
{
    if s.len() == 0 {
        0
    } else {
        16 * hex_number(s.drop_last()) + hex_value(s.last())
    }
}

/// Each digit is `0` - `9` or `a` - `f` and stands for its value.
pub proof fn lemma_hex_digit(d: u8)
    requires
        d < 16,
    ensures
        ('0' as int <= hex_char(d) as int <= '9' as int) || ('a' as int <= hex_char(d) as int <= 'f' as int),
        hex_value(hex_char(d)) == d,
{
}

/// The hexadecimal text of a byte has two digits and stands for the byte.
pub proof fn lemma_hex_byte(b: u8)
    ensures
        hex_byte(b).len() == 2,
        hex_number(hex_byte(b)) == b,
{
    lemma_hex_digit(b / 16);
    lemma_hex_digit(b % 16);
    reveal_with_fuel(hex_number, 3);
    assert(hex_byte(b).drop_last() =~= seq![hex_char(b / 16)]);
    assert(seq![hex_char(b / 16)].drop_last() =~= Seq::<char>::empty());
    assert(hex_number(seq![hex_char(b / 16)]) == b / 16);
}

/// A padded address has at least `width` digits and stands for `n`.
pub proof fn lemma_hex_padded(n: nat, width: nat)
    ensures
        hex_padded(n, width).len() >= width,
        hex_padded(n, width).len() >= 1,
        hex_number(hex_padded(n, width)) == n,
    decreases n, width,
{
    lemma_hex_digit((n % 16) as u8);
    if n < 16 && width <= 1 {
        assert(seq![hex_char(n as u8)].drop_last() =~= Seq::<char>::empty());
        assert(hex_number(seq![hex_char(n as u8)]) == 16 * hex_number(Seq::<char>::empty()) + hex_value(
            hex_char(n as u8),
        ));
    } else {
        let w: nat = if width > 0 { (width - 1) as nat } else { 0 };
        lemma_hex_padded(n / 16, w);
        let hp = hex_padded(n / 16, w);
        let whole = hp + seq![hex_char((n % 16) as u8)];
        assert(whole.drop_last() =~= hp);
        assert(whole.last() == hex_char((n % 16) as u8));
        assert(hex_number(whole) == 16 * hex_number(hp) + hex_value(hex_char((n % 16) as u8)));
        assert(hex_padded(n, width) == whole);
    }
}

proof fn lemma_hex_concat(x: Seq<char>, y: Seq<char>)
    requires
        y.len() == 2,
    ensures
        hex_number(x + y) == 256 * hex_number(x) + hex_number(y),
{
    let x0 = x + seq![y[0]];
    assert((x + y).drop_last() =~= x0);
    assert((x + y).last() == y[1]);
    assert(x0.drop_last() =~= x);
    assert(x0.last() == y[0]);
    assert(y.drop_last() =~= seq![y[0]]);
    assert(seq![y[0]].drop_last() =~= Seq::<char>::empty());
    assert(hex_number(x + y) == 16 * hex_number(x0) + hex_value(y[1]));
    assert(hex_number(x0) == 16 * hex_number(x) + hex_value(y[0]));
    assert(hex_number(y) == 16 * hex_number(seq![y[0]]) + hex_value(y[1]));
    assert(hex_number(seq![y[0]]) == 16 * hex_number(Seq::<char>::empty()) + hex_value(y[0]));
}

/// The text of an instruction is its mnemonic followed by its operand bytes
/// in hexadecimal, the last byte first: the digits after the mnemonic stand
/// for the byte, or for the little-endian word, that follows the opcode.
pub proof fn lemma_operand_digits(code: Seq<u8>, pc: int)
    requires
        0 <= pc,
        pc + instr_size(code[pc]) <= code.len(),
    ensures
        ({
            let n = disassembly(code, pc).0;
            let t = disassembly(code, pc).1;
            let m = mnemonic(code[pc]);
            &&& t.subrange(0, m.len() as int) == m
            &&& t.len() == m.len() + 2 * (n - 1)
            &&& n == 2 ==> hex_number(t.subrange(m.len() as int, t.len() as int)) == code[pc + 1]
            &&& n == 3 ==> hex_number(t.subrange(m.len() as int, t.len() as int)) == code[pc + 1] + 256
                * code[pc + 2]
        }),
{
    let t = disassembly(code, pc).1;
    let m = mnemonic(code[pc]);
    let n = instr_size(code[pc]);
    let operand = if n == 3 {
        hex_byte(code[pc + 2]) + hex_byte(code[pc + 1])
    } else if n == 2 {
        hex_byte(code[pc + 1])
    } else {
        Seq::empty()
    };
    lemma_hex_byte(code[pc + 1]);
    lemma_hex_byte(code[pc + 2]);
    assert(t.subrange(0, m.len() as int) =~= m);
    assert(t.subrange(m.len() as int, t.len() as int) =~= operand);
    if n == 3 {
        lemma_hex_concat(hex_byte(code[pc + 2]), hex_byte(code[pc + 1]));
    }
}

} // verus!
